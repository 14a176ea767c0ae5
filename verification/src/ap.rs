//! Access point (AP) mode: beacons, association requests and responses.

use crate::ffi::StaBssView;
use crate::sta::{
    beacon_info, beacon_initial_info, ie_step, ie_walk, supported_rates_ie,
    supported_rates_ie_bytes,
};
use crate::util::{append_at, frame_written, le16, ones, zeros};
use vstd::prelude::*;

verus! {

/// The beacon an AP with `bssid` sends for `ssid` on `channel`: management
/// header (frame control 0x0080, broadcast destination), zero timestamp,
/// beacon interval 100 TU, capability ESS, then the SSID, Supported Rates and
/// DS Parameter Set elements.
pub open spec fn beacon_frame(ssid: Seq<u8>, bssid: Seq<u8>, channel: u8) -> Seq<u8> {
    seq![0x80u8, 0x00, 0x00, 0x00] + ones(6) + bssid + bssid + seq![0x00u8, 0x00] + zeros(8)
        + seq![0x64u8, 0x00, 0x01, 0x00] + seq![0x00u8, ssid.len() as u8] + ssid
        + supported_rates_ie() + seq![3u8, 1, channel]
}

/// Writes a beacon for `ssid` on `channel` to the front of `out_buf`; -28
/// (ENOSPC), `out_buf` untouched, when it does not fit.
pub fn build_beacon(ssid: &[u8], bssid: &[u8; 6], channel: u8, out_buf: &mut [u8]) -> (r: Result<
    usize,
    i32,
>)
    ensures
        frame_written(old(out_buf)@, final(out_buf)@, r, beacon_frame(ssid@, bssid@, channel)),
{
    if out_buf.len() < 51 || out_buf.len() - 51 < ssid.len() {
        return Err(-28);
    }
    let total_len = 24 + 12 + 2 + ssid.len() + 10 + 3;
    let hdr: [u8; 38] = [
        0x80,
        0x00,
        0x00,
        0x00,
        0xFF,
        0xFF,
        0xFF,
        0xFF,
        0xFF,
        0xFF,
        bssid[0],
        bssid[1],
        bssid[2],
        bssid[3],
        bssid[4],
        bssid[5],
        bssid[0],
        bssid[1],
        bssid[2],
        bssid[3],
        bssid[4],
        bssid[5],
        0x00,
        0x00,
        0x00,
        0x00,
        0x00,
        0x00,
        0x00,
        0x00,
        0x00,
        0x00,
        0x64,
        0x00,
        0x01,
        0x00,
        0x00,
        ssid.len() as u8,
    ];
    let ghost h = seq![0x80u8, 0x00, 0x00, 0x00] + ones(6) + bssid@ + bssid@ + seq![0x00u8, 0x00]
        + zeros(8) + seq![0x64u8, 0x00, 0x01, 0x00] + seq![0x00u8, ssid@.len() as u8];
    assert(hdr@ =~= h);
    let rates = supported_rates_ie_bytes();
    let ds: [u8; 3] = [3, 1, channel];
    let ghost orig = out_buf@;
    assert(Seq::<u8>::empty() + orig.skip(0) =~= orig);
    append_at(out_buf, 0, &hdr, Ghost(Seq::empty()), Ghost(orig));
    assert(Seq::<u8>::empty() + hdr@ =~= h);
    append_at(out_buf, 38, ssid, Ghost(h), Ghost(orig));
    append_at(out_buf, 38 + ssid.len(), &rates, Ghost(h + ssid@), Ghost(orig));
    append_at(
        out_buf,
        48 + ssid.len(),
        &ds,
        Ghost(h + ssid@ + supported_rates_ie()),
        Ghost(orig),
    );
    assert(ds@ =~= seq![3u8, 1, channel]);
    Ok(total_len)
}

/// The AID field of an association response: the association ID in bits 13:0
/// with bits 15:14 set.
pub open spec fn aid_field(aid: u16) -> u16 {
    0xC000 | (aid & 0x3FFF)
}

/// The association response to `sta_mac` from `bssid`: management header
/// (frame control 0x0010), capability ESS, status code, AID field, Supported
/// Rates element.
pub open spec fn assoc_resp_frame(sta_mac: Seq<u8>, bssid: Seq<u8>, aid: u16, status_code: u16) -> Seq<u8> {
    seq![0x10u8, 0x00, 0x00, 0x00] + sta_mac + bssid + bssid + seq![0x00u8, 0x00] + seq![
        0x01u8,
        0x00,
    ] + le16(status_code) + le16(aid_field(aid)) + supported_rates_ie()
}

/// Writes an association response to the front of `out_buf`; -28 (ENOSPC),
/// `out_buf` untouched, when it does not fit.
pub fn build_assoc_resp(
    sta_mac: &[u8; 6],
    bssid: &[u8; 6],
    aid: u16,
    status_code: u16,
    out_buf: &mut [u8],
) -> (r: Result<usize, i32>)
    ensures
        frame_written(
            old(out_buf)@,
            final(out_buf)@,
            r,
            assoc_resp_frame(sta_mac@, bssid@, aid, status_code),
        ),
        // destination: the station; transmitter and BSSID: the AP
        r is Ok ==> final(out_buf)@.subrange(4, 10) == sta_mac@ && final(out_buf)@.subrange(10, 16)
            == bssid@ && final(out_buf)@.subrange(16, 22) == bssid@,
{
    let total_len: usize = 24 + 6 + 10;
    if out_buf.len() < total_len {
        return Err(-28);
    }
    let aid_val: u16 = 0xC000 | (aid & 0x3FFF);
    let hdr: [u8; 30] = [
        0x10,
        0x00,
        0x00,
        0x00,
        sta_mac[0],
        sta_mac[1],
        sta_mac[2],
        sta_mac[3],
        sta_mac[4],
        sta_mac[5],
        bssid[0],
        bssid[1],
        bssid[2],
        bssid[3],
        bssid[4],
        bssid[5],
        bssid[0],
        bssid[1],
        bssid[2],
        bssid[3],
        bssid[4],
        bssid[5],
        0x00,
        0x00,
        0x01,
        0x00,
        (status_code & 0xff) as u8,
        (status_code >> 8) as u8,
        (aid_val & 0xff) as u8,
        (aid_val >> 8) as u8,
    ];
    let ghost h = seq![0x10u8, 0x00, 0x00, 0x00] + sta_mac@ + bssid@ + bssid@ + seq![0x00u8, 0x00]
        + seq![0x01u8, 0x00] + le16(status_code) + le16(aid_field(aid));
    assert(hdr@ =~= h);
    let rates = supported_rates_ie_bytes();
    let ghost orig = out_buf@;
    assert(Seq::<u8>::empty() + orig.skip(0) =~= orig);
    append_at(out_buf, 0, &hdr, Ghost(Seq::empty()), Ghost(orig));
    assert(Seq::<u8>::empty() + hdr@ =~= h);
    append_at(out_buf, 30, &rates, Ghost(h), Ghost(orig));
    proof {
        lemma_assoc_resp_layout(sta_mac@, bssid@, aid, status_code);
        let f = assoc_resp_frame(sta_mac@, bssid@, aid, status_code);
        assert(f =~= h + supported_rates_ie());
        assert(out_buf@.subrange(4, 10) =~= f.subrange(4, 10));
        assert(out_buf@.subrange(10, 16) =~= f.subrange(10, 16));
        assert(out_buf@.subrange(16, 22) =~= f.subrange(16, 22));
    }
    Ok(total_len)
}

/// The frame control word of a frame (little-endian, bytes 0 and 1).
pub open spec fn frame_control(f: Seq<u8>) -> u16 {
    (f[0] as u16) | ((f[1] as u16) << 8)
}

/// A frame is taken for an association request when it is at least 28 bytes
/// long and its type/subtype bits (mask 0x00FC) are those of an association
/// (0x0000) or reassociation (0x0020) request.
pub open spec fn is_assoc_req(f: Seq<u8>) -> bool {
    &&& f.len() >= 28
    &&& ((frame_control(f) & 0x00FC) == 0x0000 || (frame_control(f) & 0x00FC) == 0x0020)
}

/// Parses an association request into the STA address (address 2), its
/// capability and its listen interval; -22 (EINVAL) for anything else.
pub fn parse_assoc_req(frame_buf: &[u8]) -> (r: Result<([u8; 6], u16, u16), i32>)
    ensures
        match r {
            Ok((sta_mac, capability, listen_interval)) => {
                &&& is_assoc_req(frame_buf@)
                &&& sta_mac@ == frame_buf@.subrange(10, 16)
                &&& capability == (frame_buf@[24] as u16) | ((frame_buf@[25] as u16) << 8)
                &&& listen_interval == (frame_buf@[26] as u16) | ((frame_buf@[27] as u16) << 8)
            },
            Err(e) => !is_assoc_req(frame_buf@) && e == -22,
        },
{
    if frame_buf.len() < 28 {
        return Err(-22);
    }
    let fc = (frame_buf[0] as u16) | ((frame_buf[1] as u16) << 8);
    if (fc & 0x00FC) != 0x0000 && (fc & 0x00FC) != 0x0020 {
        return Err(-22);
    }
    let sta_mac: [u8; 6] = [
        frame_buf[10],
        frame_buf[11],
        frame_buf[12],
        frame_buf[13],
        frame_buf[14],
        frame_buf[15],
    ];
    assert(sta_mac@ =~= frame_buf@.subrange(10, 16));
    let capability = (frame_buf[24] as u16) | ((frame_buf[25] as u16) << 8);
    let listen_interval = (frame_buf[26] as u16) | ((frame_buf[27] as u16) << 8);
    Ok((sta_mac, capability, listen_interval))
}

/// A station parsing the beacon this AP builds finds what the AP put in: the
/// BSSID, the SSID (its first 32 bytes), the channel and capability ESS, with
/// no RSSI. Holds for SSIDs of 1 to 255 bytes: an empty SSID element ends the
/// element walk before the channel is seen, and a longer SSID does not fit the
/// one-byte element length.
pub proof fn lemma_beacon_roundtrip(ssid: Seq<u8>, bssid: Seq<u8>, channel: u8)
    requires
        1 <= ssid.len() <= 255,
        bssid.len() == 6,
    ensures
        beacon_frame(ssid, bssid, channel).len() >= 36,
        ({
            let c = if ssid.len() < 32 {
                ssid.len() as int
            } else {
                32
            };
            beacon_info(beacon_frame(ssid, bssid, channel)) == StaBssView {
                bssid: bssid,
                ssid: ssid.take(c) + zeros((32 - c) as nat),
                ssid_len: c as u8,
                channel: channel,
                rssi: 0,
                capability: 1,
            }
        }),
{
    let f = beacon_frame(ssid, bssid, channel);
    let l = ssid.len() as int;
    let c = if l < 32 {
        l
    } else {
        32
    };
    let head = seq![0x80u8, 0x00, 0x00, 0x00] + ones(6) + bssid + bssid + seq![0x00u8, 0x00]
        + zeros(8) + seq![0x64u8, 0x00, 0x01, 0x00];
    assert(head.len() == 36);
    assert(f =~= head + seq![0x00u8, ssid.len() as u8] + ssid + supported_rates_ie() + seq![
        3u8,
        1,
        channel,
    ]);
    assert(f.len() == 51 + l);
    let init = beacon_initial_info(f);
    assert(f.subrange(16, 22) =~= bssid);
    assert(f[34] == 1 && f[35] == 0);
    assert((1u16 as u16) | ((0u16 as u16) << 8) == 1) by (bit_vector);
    assert(init.capability == 1);

    // SSID element at 36
    assert(f[36] == 0 && f[37] == ssid.len() as u8);
    assert(f[37] as int == l);
    let s1 = ie_step(init, f, 36);
    assert(f.subrange(38, 38 + c) =~= ssid.take(c));
    assert(zeros(32).skip(c) =~= zeros((32 - c) as nat));
    assert(s1.ssid =~= ssid.take(c) + zeros((32 - c) as nat));
    // Supported Rates element at 38 + l
    assert(f[38 + l] == 1 && f[39 + l] == 8);
    let s2 = ie_step(s1, f, 38 + l);
    assert(s2 == s1);
    // DS Parameter Set element at 48 + l
    assert(f[48 + l] == 3 && f[49 + l] == 1 && f[50 + l] == channel);
    let s3 = ie_step(s2, f, 48 + l);
    assert(ie_walk(f, 51 + l, s3) == s3);
    assert(ie_walk(f, 48 + l, s2) == s3);
    assert(ie_walk(f, 38 + l, s1) == s3);
    assert(ie_walk(f, 36, init) == s3);
}

/// An association response is a 40-byte management frame of subtype 1
/// (frame control 0x0010) addressed to the station (address 1 = `sta_mac`)
/// and sent by the AP (address 2, the transmitter, and address 3 both
/// `bssid`). It carries capability ESS, the status code at bytes 26..28 and
/// the AID with bits 15:14 set at bytes 28..30, both little-endian.
pub proof fn lemma_assoc_resp_layout(sta_mac: Seq<u8>, bssid: Seq<u8>, aid: u16, status_code: u16)
    requires
        sta_mac.len() == 6,
        bssid.len() == 6,
    ensures
        ({
            let f = assoc_resp_frame(sta_mac, bssid, aid, status_code);
            &&& f.len() == 40
            &&& f[0] == 0x10 && f[1] == 0
            &&& f.subrange(4, 10) == sta_mac
            &&& f.subrange(10, 16) == bssid
            &&& f.subrange(16, 22) == bssid
            &&& f[24] == 1 && f[25] == 0
            &&& f[26] as int + 256 * (f[27] as int) == status_code
            &&& (f[28] as int + 256 * (f[29] as int)) % 0x4000 == aid % 0x4000
            &&& f[29] >= 0xC0
        }),
{
    let f = assoc_resp_frame(sta_mac, bssid, aid, status_code);
    assert(f.subrange(4, 10) =~= sta_mac);
    assert(f.subrange(10, 16) =~= bssid);
    assert(f.subrange(16, 22) =~= bssid);
    let a = aid_field(aid);
    assert(((status_code & 0xff) as u8) as int + 256 * (((status_code >> 8) as u8) as int)
        == status_code) by (bit_vector);
    assert((((((0xC000u16 | (aid & 0x3FFF)) & 0xff) as u8) as int + 256 * ((((0xC000u16 | (aid
        & 0x3FFF)) >> 8) as u8) as int)) % 0x4000 == aid % 0x4000) && (((0xC000u16 | (aid
        & 0x3FFF)) >> 8) as u8) >= 0xC0) by (bit_vector);
}

/// A beacon is a management frame of subtype 8 (frame control 0x0080) to the
/// broadcast address, sent by the AP: address 2 (the transmitter) and address
/// 3 are both `bssid`; the beacon interval is 100 TU and the SSID element
/// follows the 36 bytes of header and fixed fields.
pub proof fn lemma_beacon_layout(ssid: Seq<u8>, bssid: Seq<u8>, channel: u8)
    requires
        bssid.len() == 6,
        ssid.len() <= 255,
    ensures
        ({
            let f = beacon_frame(ssid, bssid, channel);
            &&& f.len() == 51 + ssid.len()
            &&& f[0] == 0x80 && f[1] == 0
            &&& forall|i: int| 4 <= i < 10 ==> f[i] == 0xff
            &&& f.subrange(10, 16) == bssid
            &&& f.subrange(16, 22) == bssid
            &&& f[32] == 100 && f[33] == 0
            &&& f[36] == 0 && f[37] as int == ssid.len()
            &&& f.subrange(38, 38 + ssid.len() as int) == ssid
            &&& f[48 + ssid.len() as int] == 3 && f[49 + ssid.len() as int] == 1
            &&& f[50 + ssid.len() as int] == channel
        }),
{
    let f = beacon_frame(ssid, bssid, channel);
    assert(f.subrange(10, 16) =~= bssid);
    assert(f.subrange(16, 22) =~= bssid);
    assert(f.subrange(38, 38 + ssid.len() as int) =~= ssid);
}

} // verus!
