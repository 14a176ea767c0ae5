//! Plain data types exchanged with the kernel glue .

use vstd::prelude::*;

verus! {

/// One 32-bit register write: `addr` receives `val`.
#[derive(Debug, Clone, Copy, PartialEq, Eq, Default)]
pub struct RegWriteOp {
    pub addr: u32,
    pub val: u32,
}

/// Decoded EEPROM contents.
#[derive(Debug, Clone, Copy, PartialEq, Eq)]
pub struct EepromData {
    pub mac_addr: [u8; 6],
    pub tx_power_2g: [u8; 14],
    pub nic_config: u8,
    pub country_code: [u8; 2],
    pub eeprom_version: u16,
    /// Signed RSSI calibration offset from EEPROM 0x46, clamped to [-10,10].
    pub rssi_offset_2g: i8,
    pub is_valid: u8,
}

/// The MAC address used when the EEPROM holds none.
pub open spec fn fallback_mac() -> Seq<u8> {
    seq![0x00u8, 0x0C, 0x43, 0x76, 0x03, 0x01]
}

impl Default for EepromData {
    fn default() -> (d: Self)
        ensures
            d.mac_addr@ == fallback_mac(),
            d.tx_power_2g@ == Seq::new(14, |i: int| 0u8),
            d.nic_config == 0,
            d.country_code@ == seq![0x55u8, 0x53u8],
            d.eeprom_version == 0x7603,
            d.rssi_offset_2g == 0,
            d.is_valid == 0,
    {
        let d = Self {
            mac_addr: [0x00, 0x0C, 0x43, 0x76, 0x03, 0x01],
            tx_power_2g: [0; 14],
            nic_config: 0,
            country_code: [0x55, 0x53],
            eeprom_version: 0x7603,
            rssi_offset_2g: 0,
            is_valid: 0,
        };
        assert(d.mac_addr@ =~= fallback_mac());
        assert(d.tx_power_2g@ =~= Seq::new(14, |i: int| 0u8));
        assert(d.country_code@ =~= seq![0x55u8, 0x53u8]);
        d
    }
}

/// Result of decoding one RX descriptor.
#[derive(Debug, Clone, Copy, PartialEq, Eq, Default)]
pub struct RxInfo {
    pub pkt_len: u16,
    pub hdr_len: u16,
    pub rssi: i8,
    pub channel: u8,
    pub rate: u8,
    pub is_beacon: u8,
    pub is_data: u8,
    pub is_crc_error: u8,
}

/// Parameters of one TX descriptor.
#[derive(Debug, Clone, Copy, PartialEq, Eq)]
pub struct TxParams {
    /// mac80211 rate index (legacy; the rate is taken from rate_mode/rate_mcs).
    pub rate_idx: u8,
    /// TXD wlan_idx (WCID); 0 for unassociated broadcast.
    pub pid: u8,
    /// TXD q_idx (0x04 for management frames).
    pub queue: u8,
    /// 802.11 header length (24 for a probe request); must be even.
    pub hdr_len: u8,
    /// 802.11 frame control type (0=mgmt, 1=ctl, 2=data).
    pub frm_type: u8,
    /// 802.11 frame control subtype (probe request = 4).
    pub sub_type: u8,
    /// 1 if no ACK is required.
    pub no_ack: u8,
    /// 1 if broadcast/multicast.
    pub is_bm: u8,
    /// Rate PHY mode: CCK(0) / OFDM(1) / HT mixed(2) / HT greenfield(3).
    pub rate_mode: u8,
    /// Rate MCS index (CCK: 0=1M, 1=2M, 2=5.5M, 3=11M).
    pub rate_mcs: u8,
    /// Preamble: short(0) / long(1).
    pub preamble: u8,
    /// Bandwidth: 20 MHz(0) / 40 MHz(1).
    pub bw: u8,
    /// 802.11 frame length in bytes (excluding the TX descriptor).
    pub pkt_len: u16,
    /// 1 if the frame must be 802.11-protected (CCMP-encrypted by hardware).
    /// Maps to TMAC_TXD_1 `protect_frm` (bit 23). Set from
    /// `IEEE80211_TX_CTL_PROTECTED` by the C TX path.
    pub protect_frm: u8,
}

/// BSS information decoded from a beacon or probe response.
#[derive(Debug, Clone, Copy, PartialEq, Eq, Default)]
pub struct StaBssInfo {
    pub bssid: [u8; 6],
    pub ssid: [u8; 32],
    pub ssid_len: u8,
    pub channel: u8,
    pub rssi: i8,
    pub capability: u16,
}

/// Mathematical view of a [`StaBssInfo`].
pub struct StaBssView {
    pub bssid: Seq<u8>,
    pub ssid: Seq<u8>,
    pub ssid_len: u8,
    pub channel: u8,
    pub rssi: i8,
    pub capability: u16,
}

impl View for StaBssInfo {
    type V = StaBssView;

    open spec fn view(&self) -> StaBssView {
        StaBssView {
            bssid: self.bssid@,
            ssid: self.ssid@,
            ssid_len: self.ssid_len,
            channel: self.channel,
            rssi: self.rssi,
            capability: self.capability,
        }
    }
}

} // verus!
