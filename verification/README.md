# mt7603u_logic

The pure logic of a Linux driver for MediaTek MT7603U USB 802.11b/g/n
adapters, written in Verus: every function in `src/` carries a contract that
Verus proves.

- `src/eeprom.rs` decodes the EEPROM image (MAC address, TX power, RSSI offset).
- `src/regmap.rs` translates HIF register addresses to global physical addresses.
- `src/mac.rs`, `src/sta.rs` build register-write sequences (MAC init, channel,
  own address, WTBL1 entries).
- `src/sta.rs`, `src/ap.rs` build and parse 802.11 management frames (probe
  request, beacon, association request and response).
- `src/rx.rs`, `src/tx.rs` decode RX descriptors and build TX descriptors.
- `src/mcu.rs` frames MCU commands and firmware download requests.

`app/` holds what is not verified: the C ABI entry points used by the kernel
module skeleton and a user-space USB runner built on `rusb`.
