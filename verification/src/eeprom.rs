//! EEPROM image decoding and calibration values.

use crate::ffi::{fallback_mac, EepromData};
use vstd::prelude::*;

verus! {

/// Smallest EEPROM image that is accepted.
pub const EEPROM_MIN_LEN: usize = 256;

/// Offset of the MAC address in the EEPROM image.
pub const EEPROM_MAC_OFFSET: usize = 0x04;

/// Offset of the 14 per-channel 2.4 GHz TX power bytes.
pub const EEPROM_TX_POWER_2G_OFFSET: usize = 0x50;

/// Offset of the signed 2.4 GHz RSSI calibration offset.
pub const EEPROM_RSSI_BG_OFFSET: usize = 0x46;

/// A MAC address that is all 0x00 or all 0xFF is blank (unprogrammed).
pub open spec fn mac_is_blank(m: Seq<u8>) -> bool {
    ||| forall|i: int| 0 <= i < m.len() ==> m[i] == 0x00
    ||| forall|i: int| 0 <= i < m.len() ==> m[i] == 0xFF
}

/// The MAC address taken from an EEPROM image: the stored one, or the fallback
/// address when the stored one is blank.
pub open spec fn eeprom_mac(buf: Seq<u8>) -> Seq<u8> {
    let m = buf.subrange(EEPROM_MAC_OFFSET as int, EEPROM_MAC_OFFSET + 6);
    if mac_is_blank(m) {
        fallback_mac()
    } else {
        m
    }
}

/// The RSSI calibration offset: the byte read as a signed value, kept when it
/// lies in [-10, 10] and replaced by 0 otherwise.
pub open spec fn clamp_rssi_offset(b: u8) -> i8 {
    let o = b as i8;
    if -10 <= o <= 10 {
        o
    } else {
        0
    }
}

/// Decodes an EEPROM image.
///
/// Images shorter than 256 bytes are rejected with -22 (EINVAL). Otherwise the
/// MAC address (offset 0x04, or the fallback address when blank), the 14 TX
/// power bytes (offset 0x50) and the clamped RSSI offset (offset 0x46) are
/// taken from the image; the other fields keep their defaults and `is_valid`
/// is set.
pub fn parse_eeprom(buf: &[u8]) -> (r: Result<EepromData, i32>)
    ensures
        match r {
            Ok(d) => {
                &&& buf@.len() >= EEPROM_MIN_LEN
                &&& d.mac_addr@ == eeprom_mac(buf@)
                &&& d.tx_power_2g@ == buf@.subrange(
                    EEPROM_TX_POWER_2G_OFFSET as int,
                    EEPROM_TX_POWER_2G_OFFSET + 14,
                )
                &&& d.nic_config == 0
                &&& d.country_code@ == seq![0x55u8, 0x53u8]
                &&& d.eeprom_version == 0x7603
                &&& d.rssi_offset_2g == clamp_rssi_offset(buf@[EEPROM_RSSI_BG_OFFSET as int])
                &&& d.is_valid == 1
                // the decoded MAC address is always usable
                &&& !mac_is_blank(d.mac_addr@)
                &&& -10 <= d.rssi_offset_2g <= 10
            },
            Err(e) => buf@.len() < EEPROM_MIN_LEN && e == -22,
        },
{
    if buf.len() < EEPROM_MIN_LEN {
        return Err(-22);
    }
    let mut data = EepromData::default();

    let o = EEPROM_MAC_OFFSET;
    let mac: [u8; 6] = [buf[o], buf[o + 1], buf[o + 2], buf[o + 3], buf[o + 4], buf[o + 5]];
    let is_all_zero = mac[0] == 0x00 && mac[1] == 0x00 && mac[2] == 0x00 && mac[3] == 0x00
        && mac[4] == 0x00 && mac[5] == 0x00;
    let is_all_ff = mac[0] == 0xFF && mac[1] == 0xFF && mac[2] == 0xFF && mac[3] == 0xFF
        && mac[4] == 0xFF && mac[5] == 0xFF;
    let ghost m = buf@.subrange(EEPROM_MAC_OFFSET as int, EEPROM_MAC_OFFSET + 6);
    assert(mac@ =~= m);
    proof {
        assert(fallback_mac()[0] == 0x00 && fallback_mac()[1] == 0x0C);
        if is_all_zero {
            assert(forall|i: int| 0 <= i < m.len() ==> m[i] == 0x00);
        } else if is_all_ff {
            assert(forall|i: int| 0 <= i < m.len() ==> m[i] == 0xFF);
        } else {
            assert(!mac_is_blank(m)) by {
                if forall|i: int| 0 <= i < m.len() ==> m[i] == 0x00 {
                    assert(m[0] == 0 && m[1] == 0 && m[2] == 0 && m[3] == 0 && m[4] == 0 && m[5]
                        == 0);
                }
                if forall|i: int| 0 <= i < m.len() ==> m[i] == 0xFF {
                    assert(m[0] == 0xFF && m[1] == 0xFF && m[2] == 0xFF && m[3] == 0xFF && m[4]
                        == 0xFF && m[5] == 0xFF);
                }
            }
        }
    }
    if !(is_all_zero || is_all_ff) {
        data.mac_addr = mac;
    }

    let t = EEPROM_TX_POWER_2G_OFFSET;
    data.tx_power_2g = [
        buf[t],
        buf[t + 1],
        buf[t + 2],
        buf[t + 3],
        buf[t + 4],
        buf[t + 5],
        buf[t + 6],
        buf[t + 7],
        buf[t + 8],
        buf[t + 9],
        buf[t + 10],
        buf[t + 11],
        buf[t + 12],
        buf[t + 13],
    ];
    assert(data.tx_power_2g@ =~= buf@.subrange(
        EEPROM_TX_POWER_2G_OFFSET as int,
        EEPROM_TX_POWER_2G_OFFSET + 14,
    ));

    let offset = buf[EEPROM_RSSI_BG_OFFSET] as i8;
    data.rssi_offset_2g = if -10 <= offset && offset <= 10 {
        offset
    } else {
        0
    };

    data.is_valid = 1;
    Ok(data)
}

} // verus!
