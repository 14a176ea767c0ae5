//! Station (STA) mode: probe requests, beacon parsing and the WTBL1 entries
//! of an association.

use crate::ffi::{RegWriteOp, StaBssInfo, StaBssView};
use crate::regmap::{hif_addr_translated, mac_cr_lookup, spec_physical_addr_map};
use crate::util::{append_at, frame_written, ones, write_at, zeros};
use vstd::prelude::*;

verus! {

/// The Supported Rates element offered in management frames:
/// 1, 2, 5.5, 11 Mbit/s (basic) and 18, 24, 36, 54 Mbit/s.
pub open spec fn supported_rates_ie() -> Seq<u8> {
    seq![1u8, 8, 0x82, 0x84, 0x8b, 0x96, 0x24, 0x30, 0x48, 0x6c]
}

/// The Supported Rates element, ready to be copied.
pub(crate) fn supported_rates_ie_bytes() -> (r: [u8; 10])
    ensures
        r@ == supported_rates_ie(),
{
    let r: [u8; 10] = [1, 8, 0x82, 0x84, 0x8b, 0x96, 0x24, 0x30, 0x48, 0x6c];
    assert(r@ =~= supported_rates_ie());
    r
}

/// A probe request from `src_mac` for `ssid`: management header (frame
/// control 0x0040, broadcast destination and BSSID), SSID element, Supported
/// Rates element.
pub open spec fn probe_request_frame(ssid: Seq<u8>, src_mac: Seq<u8>) -> Seq<u8> {
    seq![0x40u8, 0x00, 0x00, 0x00] + ones(6) + src_mac + ones(6) + seq![0x00u8, 0x00] + seq![
        0x00u8,
        ssid.len() as u8,
    ] + ssid + supported_rates_ie()
}

/// Writes a probe request for `ssid` from `src_mac` to the front of
/// `out_buf`; -28 (ENOSPC), `out_buf` untouched, when it does not fit.
pub fn build_probe_request(ssid: &[u8], src_mac: &[u8; 6], out_buf: &mut [u8]) -> (r: Result<
    usize,
    i32,
>)
    ensures
        frame_written(
            old(out_buf)@,
            final(out_buf)@,
            r,
            probe_request_frame(ssid@, src_mac@),
        ),
{
    if out_buf.len() < 36 || out_buf.len() - 36 < ssid.len() {
        return Err(-28);
    }
    let total_len = 24 + 2 + ssid.len() + 10;
    let hdr: [u8; 26] = [
        0x40,
        0x00,
        0x00,
        0x00,
        0xFF,
        0xFF,
        0xFF,
        0xFF,
        0xFF,
        0xFF,
        src_mac[0],
        src_mac[1],
        src_mac[2],
        src_mac[3],
        src_mac[4],
        src_mac[5],
        0xFF,
        0xFF,
        0xFF,
        0xFF,
        0xFF,
        0xFF,
        0x00,
        0x00,
        0x00,
        ssid.len() as u8,
    ];
    let ghost h = seq![0x40u8, 0x00, 0x00, 0x00] + ones(6) + src_mac@ + ones(6) + seq![
        0x00u8,
        0x00,
    ] + seq![0x00u8, ssid@.len() as u8];
    assert(hdr@ =~= h);
    let rates = supported_rates_ie_bytes();
    let ghost orig = out_buf@;
    assert(Seq::<u8>::empty() + orig.skip(0) =~= orig);
    append_at(out_buf, 0, &hdr, Ghost(Seq::empty()), Ghost(orig));
    assert(Seq::<u8>::empty() + hdr@ =~= h);
    append_at(out_buf, 26, ssid, Ghost(h), Ghost(orig));
    append_at(out_buf, 26 + ssid.len(), &rates, Ghost(h + ssid@), Ghost(orig));
    Ok(total_len)
}

/// The BSS information parsing starts from: addresses and capability from the
/// fixed part of the frame, no SSID, channel 0, unknown RSSI.
pub open spec fn beacon_initial_info(f: Seq<u8>) -> StaBssView {
    StaBssView {
        bssid: f.subrange(16, 22),
        ssid: zeros(32),
        ssid_len: 0,
        channel: 0,
        rssi: 0,
        capability: (f[34] as u16) | ((f[35] as u16) << 8),
    }
}

/// Effect of the information element at `pos` on the parsed information: the
/// first SSID element sets the SSID (at most 32 bytes); a DS Parameter Set
/// element sets the channel; other elements change nothing.
pub open spec fn ie_step(st: StaBssView, f: Seq<u8>, pos: int) -> StaBssView {
    let id = f[pos];
    let l = f[pos + 1] as int;
    if id == 0 && st.ssid_len == 0 {
        let c = if l < 32 {
            l
        } else {
            32
        };
        StaBssView {
            ssid: f.subrange(pos + 2, pos + 2 + c) + st.ssid.skip(c),
            ssid_len: c as u8,
            ..st
        }
    } else if id == 3 && l >= 1 {
        StaBssView { channel: f[pos + 2], ..st }
    } else {
        st
    }
}

/// Walks the information elements from `pos` on. The walk stops at the end of
/// the frame, at an empty element, or at an element that runs past the end.
pub open spec fn ie_walk(f: Seq<u8>, pos: int, st: StaBssView) -> StaBssView
    decreases f.len() - pos,
{
    if pos < 0 || pos + 2 > f.len() {
        st
    } else {
        let l = f[pos + 1] as int;
        if l == 0 || pos + 2 + l > f.len() {
            st
        } else {
            ie_walk(f, pos + 2 + l, ie_step(st, f, pos))
        }
    }
}

/// The BSS information a beacon or probe response frame of at least 36 bytes
/// carries; its elements start after the 24-byte header and 12 fixed bytes.
pub open spec fn beacon_info(f: Seq<u8>) -> StaBssView {
    ie_walk(f, 36, beacon_initial_info(f))
}

/// Parses a beacon or probe response frame.
///
/// Frames shorter than 36 bytes are refused with -22 (EINVAL).
pub fn parse_beacon(frame_buf: &[u8]) -> (r: Result<StaBssInfo, i32>)
    ensures
        match r {
            Ok(info) => {
                &&& frame_buf@.len() >= 36
                &&& info@ == beacon_info(frame_buf@)
                // the SSID length never exceeds the 32-byte SSID field
                &&& info.ssid_len <= 32
                // BSSID (address 3) and capability come from the fixed part
                &&& info.bssid@ == frame_buf@.subrange(16, 22)
                &&& info.capability & 0xff == frame_buf@[34] as u16
                &&& info.capability >> 8 == frame_buf@[35] as u16
            },
            Err(e) => frame_buf@.len() < 36 && e == -22,
        },
{
    if frame_buf.len() < 36 {
        return Err(-22);
    }
    let ghost f = frame_buf@;
    let len = frame_buf.len();
    let mut info = StaBssInfo {
        bssid: [
            frame_buf[16],
            frame_buf[17],
            frame_buf[18],
            frame_buf[19],
            frame_buf[20],
            frame_buf[21],
        ],
        ssid: [0u8; 32],
        ssid_len: 0,
        channel: 0,
        rssi: 0,
        capability: (frame_buf[34] as u16) | ((frame_buf[35] as u16) << 8),
    };
    assert(info.bssid@ =~= f.subrange(16, 22));
    assert(info.ssid@ =~= zeros(32));
    assert(info@ == beacon_initial_info(f));

    let mut pos: usize = 36;
    while len - pos >= 2
        invariant
            len == f.len(),
            f == frame_buf@,
            36 <= pos <= len,
            info.ssid@.len() == 32,
            info.ssid_len <= 32,
            beacon_info(f) == ie_walk(f, pos as int, info@),
        ensures
            beacon_info(f) == info@,
            info.ssid_len <= 32,
        decreases len - pos,
    {
        let ie_id = frame_buf[pos];
        let ie_len = frame_buf[pos + 1] as usize;
        if ie_len == 0 || ie_len > len - pos - 2 {
            break;
        }
        let ghost st = info@;
        if ie_id == 0 && info.ssid_len == 0 {
            let copy_len = if ie_len < 32 {
                ie_len
            } else {
                32
            };
            let mut k: usize = 0;
            while k < copy_len
                invariant
                    k <= copy_len <= 32,
                    pos + 2 + copy_len <= len,
                    len == f.len(),
                    f == frame_buf@,
                    info.ssid@ == f.subrange(pos + 2, pos + 2 + k) + st.ssid.skip(k as int),
                    st.ssid.len() == 32,
                    info.bssid@ == st.bssid,
                    info.ssid_len == st.ssid_len,
                    info.channel == st.channel,
                    info.rssi == st.rssi,
                    info.capability == st.capability,
                decreases copy_len - k,
            {
                info.ssid[k] = frame_buf[pos + 2 + k];
                assert(info.ssid@ =~= f.subrange(pos + 2, pos + 2 + k + 1) + st.ssid.skip(k + 1));
                k = k + 1;
            }
            info.ssid_len = copy_len as u8;
            assert(info@ == ie_step(st, f, pos as int));
        } else if ie_id == 3 {
            info.channel = frame_buf[pos + 2];
            assert(info@ == ie_step(st, f, pos as int));
        }
        pos = pos + 2 + ie_len;
    }
    proof {
        lemma_beacon_fixed_fields(f);
    }
    Ok(info)
}

/// The element walk changes neither the BSSID, nor the capability, nor the
/// RSSI.
pub proof fn lemma_ie_walk_keeps_fixed_fields(f: Seq<u8>, pos: int, st: StaBssView)
    ensures
        ie_walk(f, pos, st).bssid == st.bssid,
        ie_walk(f, pos, st).capability == st.capability,
        ie_walk(f, pos, st).rssi == st.rssi,
    decreases f.len() - pos,
{
    if pos < 0 || pos + 2 > f.len() {
    } else {
        let l = f[pos + 1] as int;
        if l == 0 || pos + 2 + l > f.len() {
        } else {
            lemma_ie_walk_keeps_fixed_fields(f, pos + 2 + l, ie_step(st, f, pos));
        }
    }
}

/// Whatever elements a beacon or probe response carries, the parsed BSSID is
/// address 3 (bytes 16..22), the capability is the little-endian word at bytes
/// 34..36 (low byte 34, high byte 35), and the RSSI is left unknown (0).
pub proof fn lemma_beacon_fixed_fields(f: Seq<u8>)
    requires
        f.len() >= 36,
    ensures
        beacon_info(f).bssid == f.subrange(16, 22),
        beacon_info(f).capability & 0xff == f[34] as u16,
        beacon_info(f).capability >> 8 == f[35] as u16,
        beacon_info(f).rssi == 0,
{
    lemma_ie_walk_keeps_fixed_fields(f, 36, beacon_initial_info(f));
    let lo = f[34];
    let hi = f[35];
    assert(((lo as u16) | ((hi as u16) << 8)) & 0xff == lo as u16 && ((lo as u16) | ((hi as u16)
        << 8)) >> 8 == hi as u16) by (bit_vector);
}

/// A probe request carries frame control 0x0040 (management, subtype 4), a
/// broadcast destination and BSSID, the sender as address 2, and an SSID
/// element holding `ssid` right after the 24-byte header.
pub proof fn lemma_probe_request_layout(ssid: Seq<u8>, src_mac: Seq<u8>)
    requires
        src_mac.len() == 6,
        ssid.len() <= 255,
    ensures
        ({
            let f = probe_request_frame(ssid, src_mac);
            &&& f.len() == 36 + ssid.len()
            &&& f[0] == 0x40 && f[1] == 0
            &&& forall|i: int| 4 <= i < 10 ==> f[i] == 0xff
            &&& f.subrange(10, 16) == src_mac
            &&& forall|i: int| 16 <= i < 22 ==> f[i] == 0xff
            &&& f[24] == 0 && f[25] as int == ssid.len()
            &&& f.subrange(26, 26 + ssid.len() as int) == ssid
        }),
{
    let f = probe_request_frame(ssid, src_mac);
    assert(f.subrange(10, 16) =~= src_mac);
    assert(f.subrange(26, 26 + ssid.len() as int) =~= ssid);
}

pub const WTBL1_BASE: u32 = 0x0002_8000;
/// Size of one WTBL1 entry (20 bytes).
pub const WTBL1_ENTRY_SIZE: u32 = 0x14;
pub const WTBL1OR: u32 = 0x0002_A300;

/// WTBL key SRAM base (host remap), 64 bytes per WCID.
pub const WTBL3_KEY_BASE: u32 = 0x0004_2000;
/// Size of one WTBL3 key entry.
pub const WTBL3_ENTRY_SIZE: u32 = 0x40;

/// The WTBL2/3/4 fragment and entry IDs of a WCID, as (fid2, eid2, fid3,
/// eid3, fid4, eid4). A 128-byte page holds 2 WTBL2, 2 WTBL3 and 4 WTBL4
/// entries; WTBL2 pages start at fragment 0, WTBL3 pages at 64 and WTBL4 pages
/// at 128; WTBL3 entry IDs count in half entries.
pub open spec fn spec_wtbl_entry234(wcid: u32) -> (u32, u32, u32, u32, u32, u32) {
    (wcid / 2, wcid % 2, (64 + wcid / 2) as u32, ((wcid % 2) * 2) as u32, (128 + wcid / 4) as u32, wcid % 4)
}

/// Computes the WTBL2/3/4 fragment and entry IDs for a WCID.
pub fn wtbl_entry234(wcid: u32) -> (r: (u32, u32, u32, u32, u32, u32))
    ensures
        r == spec_wtbl_entry234(wcid),
{
    let page_size: u32 = 128;
    let ecnt2: u32 = page_size / 64;
    let ecnt3: u32 = page_size / 64;
    let ecnt4: u32 = page_size / 32;
    let page_cnt2: u32 = (128 + ecnt2 - 1) / ecnt2;
    let page_cnt3: u32 = (128 + ecnt3 - 1) / ecnt3;
    let base_fid2: u32 = 0;
    let base_fid3: u32 = base_fid2 + page_cnt2;
    let base_fid4: u32 = base_fid3 + page_cnt3;

    let page_off2 = wcid / ecnt2;
    let elem_off2 = wcid % ecnt2;
    let page_off3 = wcid / ecnt3;
    let elem_off3 = wcid % ecnt3;
    let page_off4 = wcid / ecnt4;
    let elem_off4 = wcid % ecnt4;

    let fid2 = base_fid2 + page_off2;
    let eid2 = elem_off2;
    let fid3 = base_fid3 + page_off3;
    let eid3 = elem_off3 * 2;
    let fid4 = base_fid4 + page_off4;
    let eid4 = elem_off4;
    (fid2, eid2, fid3, eid3, fid4, eid4)
}

/// Distinct WCIDs get distinct WTBL2 and WTBL3 slots: the slots determine the
/// WCID.
pub proof fn lemma_wtbl_entry234_injective(a: u32, b: u32)
    requires
        spec_wtbl_entry234(a).0 == spec_wtbl_entry234(b).0,
        spec_wtbl_entry234(a).1 == spec_wtbl_entry234(b).1,
    ensures
        a == b,
{
}

/// WTBL1 DW3 of a WCID: WTBL2 FID in bits 10:0, WTBL2 EID from bit 11, WTBL4
/// FID from bit 16.
pub open spec fn wtbl_dw3(wcid: u32) -> u32 {
    let (fid2, eid2, _fid3, _eid3, fid4, _eid4) = spec_wtbl_entry234(wcid);
    fid2 | (eid2 << 11) | (fid4 << 16)
}

/// WTBL1 DW4 of a WCID: WTBL3 FID in bits 10:0, WTBL3 EID from bit 11, WTBL4
/// EID from bit 17.
pub open spec fn wtbl_dw4(wcid: u32) -> u32 {
    let (_fid2, _eid2, fid3, eid3, _fid4, eid4) = spec_wtbl_entry234(wcid);
    fid3 | (eid3 << 11) | (eid4 << 17)
}

/// The WTBL1 DW3/DW4 cross-link words of a WCID.
pub fn wtbl_dw3_dw4(wcid: u32) -> (r: (u32, u32))
    ensures
        r == (wtbl_dw3(wcid), wtbl_dw4(wcid)),
{
    let (fid2, eid2, fid3, eid3, fid4, eid4) = wtbl_entry234(wcid);
    let dw3 = fid2 | (eid2 << 11) | (fid4 << 16);
    let dw4 = fid3 | (eid3 << 11) | (eid4 << 17);
    (dw3, dw4)
}

/// Number of writes in the STA WTBL1 sequence.
pub const WTBL_STA_SEQUENCE_LEN: usize = 12;

/// DW0 of the broadcast entry: valid, A1 and A2 compare on, MUAR index 0x0E,
/// address bytes 4 and 5 all ones.
pub open spec fn wtbl_bcast_dw0() -> u32 {
    (1u32 << 29) | (1u32 << 28) | (1u32 << 22) | (0x0Eu32 << 16) | (0xFFu32 << 8) | 0xFFu32
}

/// DW0 of the AP entry: valid, A2 compare on, BSSID bytes 4 and 5.
pub open spec fn wtbl_ap_dw0(bssid: Seq<u8>) -> u32 {
    (1u32 << 29) | (1u32 << 28) | ((bssid[5] as u32) << 8) | (bssid[4] as u32)
}

/// DW1 of the AP entry: BSSID bytes 0..4, little-endian.
pub open spec fn wtbl_ap_dw1(bssid: Seq<u8>) -> u32 {
    (bssid[0] as u32) | ((bssid[1] as u32) << 8) | ((bssid[2] as u32) << 16) | ((bssid[3] as u32)
        << 24)
}

/// DW2 of the AP entry: QoS, HT, BA frame enable and dynamic bandwidth.
pub open spec fn wtbl_ap_dw2() -> u32 {
    (1u32 << 28) | (1u32 << 27) | (1u32 << 21) | (1u32 << 20)
}

/// The STA WTBL1 sequence: entry 0 (broadcast, no cipher) and entry 1 (the
/// AP), each five words with the WTBL2/3/4 cross-links of WCID 0 and 1, then a
/// table flush trigger and its clear.
pub open spec fn wtbl_sta_sequence(bssid: Seq<u8>) -> Seq<RegWriteOp> {
    seq![
        RegWriteOp { addr: WTBL1_BASE, val: wtbl_bcast_dw0() },
        RegWriteOp { addr: (WTBL1_BASE + 0x04) as u32, val: 0xFFFF_FFFF },
        RegWriteOp { addr: (WTBL1_BASE + 0x08) as u32, val: 0 },
        RegWriteOp { addr: (WTBL1_BASE + 0x0C) as u32, val: wtbl_dw3(0) },
        RegWriteOp { addr: (WTBL1_BASE + 0x10) as u32, val: wtbl_dw4(0) },
        RegWriteOp { addr: (WTBL1_BASE + WTBL1_ENTRY_SIZE) as u32, val: wtbl_ap_dw0(bssid) },
        RegWriteOp { addr: (WTBL1_BASE + WTBL1_ENTRY_SIZE + 0x04) as u32, val: wtbl_ap_dw1(bssid) },
        RegWriteOp { addr: (WTBL1_BASE + WTBL1_ENTRY_SIZE + 0x08) as u32, val: wtbl_ap_dw2() },
        RegWriteOp { addr: (WTBL1_BASE + WTBL1_ENTRY_SIZE + 0x0C) as u32, val: wtbl_dw3(1) },
        RegWriteOp { addr: (WTBL1_BASE + WTBL1_ENTRY_SIZE + 0x10) as u32, val: wtbl_dw4(1) },
        RegWriteOp { addr: WTBL1OR, val: 0x8000_0000 },
        RegWriteOp { addr: WTBL1OR, val: 0 },
    ]
}

/// Writes the WTBL1 sequence of a STA associated with `bssid`; -28 (ENOSPC),
/// `out_ops` untouched, when fewer than 12 slots are given.
pub fn build_wtbl_sta_sequence(bssid: &[u8; 6], out_ops: &mut [RegWriteOp]) -> (r: Result<
    usize,
    i32,
>)
    ensures
        frame_written(old(out_ops)@, final(out_ops)@, r, wtbl_sta_sequence(bssid@)),
{
    if out_ops.len() < WTBL_STA_SEQUENCE_LEN {
        return Err(-28);
    }
    let dw0_mcast: u32 = (1 << 29) | (1 << 28) | (1 << 22) | (0x0E << 16) | (0xFF << 8) | 0xFF;
    let dw1_mcast: u32 = 0xFFFF_FFFF;
    let dw2_mcast: u32 = 0x0000_0000;
    let (dw3_mcast, dw4_mcast) = wtbl_dw3_dw4(0);

    let dw0_ap = (1 << 29) | (1 << 28) | ((bssid[5] as u32) << 8) | (bssid[4] as u32);
    let dw1_ap = (bssid[0] as u32) | ((bssid[1] as u32) << 8) | ((bssid[2] as u32) << 16) | ((
    bssid[3] as u32) << 24);
    let dw2_ap: u32 = (1 << 28) | (1 << 27) | (1 << 21) | (1 << 20);
    let (dw3_ap, dw4_ap) = wtbl_dw3_dw4(1);

    let ops: [RegWriteOp; 12] = [
        RegWriteOp { addr: WTBL1_BASE, val: dw0_mcast },
        RegWriteOp { addr: WTBL1_BASE + 0x04, val: dw1_mcast },
        RegWriteOp { addr: WTBL1_BASE + 0x08, val: dw2_mcast },
        RegWriteOp { addr: WTBL1_BASE + 0x0C, val: dw3_mcast },
        RegWriteOp { addr: WTBL1_BASE + 0x10, val: dw4_mcast },
        RegWriteOp { addr: WTBL1_BASE + WTBL1_ENTRY_SIZE, val: dw0_ap },
        RegWriteOp { addr: WTBL1_BASE + WTBL1_ENTRY_SIZE + 0x04, val: dw1_ap },
        RegWriteOp { addr: WTBL1_BASE + WTBL1_ENTRY_SIZE + 0x08, val: dw2_ap },
        RegWriteOp { addr: WTBL1_BASE + WTBL1_ENTRY_SIZE + 0x0C, val: dw3_ap },
        RegWriteOp { addr: WTBL1_BASE + WTBL1_ENTRY_SIZE + 0x10, val: dw4_ap },
        RegWriteOp { addr: WTBL1OR, val: 0x8000_0000 },
        RegWriteOp { addr: WTBL1OR, val: 0x0000_0000 },
    ];
    assert(ops@ =~= wtbl_sta_sequence(bssid@));
    write_at(out_ops, 0, &ops);
    assert(old(out_ops)@.take(0) + ops@ =~= wtbl_sta_sequence(bssid@));
    Ok(WTBL_STA_SEQUENCE_LEN)
}

/// Every register the STA WTBL1 sequence writes lies in a HIF region that has
/// a global physical address.
#[verifier::rlimit(50)]
pub proof fn lemma_wtbl_sta_sequence_uses_translated_addresses(bssid: Seq<u8>)
    ensures
        forall|i: int|
            0 <= i < wtbl_sta_sequence(bssid).len() ==> hif_addr_translated(
                #[trigger] wtbl_sta_sequence(bssid)[i].addr,
            ),
{
    reveal_with_fuel(mac_cr_lookup, 18);
    assert forall|i: int| 0 <= i < wtbl_sta_sequence(bssid).len() implies hif_addr_translated(
        #[trigger] wtbl_sta_sequence(bssid)[i].addr,
    ) by {
        let a = wtbl_sta_sequence(bssid)[i].addr;
        assert(spec_physical_addr_map(a) != a);
    }
}

} // verus!
