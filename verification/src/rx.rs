//! RX descriptor (RMAC_RXD) parsing and frame classification.

use crate::ffi::RxInfo;
use vstd::prelude::*;

verus! {

/// Size of the fixed part of the RX descriptor.
pub const RMAC_RXD_MIN_SIZE: usize = 16;

/// Group-valid flags (DW0 bits 28:25): bit 0 group 1, bit 1 group 2, bit 2
/// group 3, bit 3 group 4.
pub open spec fn rx_grp_vld(b: Seq<u8>) -> u8 {
    (b[3] >> 1) & 0x0F
}

/// Packet type (DW0 bits 31:29).
pub open spec fn rx_pkt_type(b: Seq<u8>) -> u8 {
    (b[3] >> 5) & 0x07
}

/// Only normal (0x02) and duplicate-RFB (0x03) packets carry 802.11 frames.
pub open spec fn rx_is_frame(b: Seq<u8>) -> bool {
    rx_pkt_type(b) == 0x02 || rx_pkt_type(b) == 0x03
}

/// Offset of group 3 (RX vector): the fixed part, then groups 4, 1 and 2 when
/// present.
pub open spec fn rx_group3_offset(g: u8) -> int {
    RMAC_RXD_MIN_SIZE as int + (if g & 0x08 != 0 { 16int } else { 0 }) + (if g & 0x01 != 0 {
        16int
    } else {
        0
    }) + (if g & 0x02 != 0 { 8int } else { 0 })
}

/// Length of the whole RX descriptor: up to group 3, group 3 when present,
/// and 2 more bytes when the header-offset bit (DW1 bit 22) is set.
pub open spec fn rx_header_len(b: Seq<u8>) -> int {
    let g = rx_grp_vld(b);
    rx_group3_offset(g) + (if g & 0x04 != 0 { 24int } else { 0 }) + (if (b[6] >> 6) & 0x01 == 1 {
        2int
    } else {
        0
    })
}

/// Signed 8-bit addition that saturates at the bounds.
pub open spec fn i8_saturating_add(a: i8, b: i8) -> i8 {
    let s = a as int + b as int;
    if s > 127 {
        127i8
    } else if s < -128 {
        -128i8
    } else {
        s as i8
    }
}

/// RSSI in dBm, taken from normal RX packets only: the in-band RSSI of
/// chain 0 (group 3, byte 12) plus the calibration offset; 0 (unknown) for
/// other packets, without group 3, or when that byte is 0.
pub open spec fn rx_rssi(b: Seq<u8>, rssi_offset: i8) -> i8 {
    let g = rx_grp_vld(b);
    if g & 0x04 != 0 && rx_pkt_type(b) == 0x02 {
        let ib = b[rx_group3_offset(g) + 12] as i8;
        if ib != 0 {
            i8_saturating_add(ib, rssi_offset)
        } else {
            0
        }
    } else {
        0
    }
}

/// The RX byte count (DW0 bits 15:0).
pub open spec fn rx_byte_cnt(b: Seq<u8>) -> u16 {
    (b[0] as u16) | ((b[1] as u16) << 8)
}

/// Length of the 802.11 frame: the byte count when it is non-zero and within
/// the buffer (the buffer length otherwise), less the descriptor.
pub open spec fn rx_mpdu_len(b: Seq<u8>) -> int {
    let cnt = rx_byte_cnt(b) as int;
    let total = if cnt <= b.len() && cnt > 0 {
        cnt
    } else {
        b.len() as int
    };
    if total >= rx_header_len(b) {
        total - rx_header_len(b)
    } else {
        0
    }
}

/// The frame is a beacon: type management and subtype 8, or one of the
/// beacon flags (DW1 bits 4 and 5) set.
pub open spec fn rx_is_beacon(b: Seq<u8>) -> bool {
    let fc = b[rx_header_len(b)];
    let ftype = (fc >> 2) & 0x03;
    let subtype = (fc >> 4) & 0x0F;
    rx_mpdu_len(b) >= 2 && ((ftype == 0 && subtype == 8) || (b[4] >> 4) & 0x01 != 0 || (b[4] >> 5)
        & 0x01 != 0)
}

/// The frame is a data frame (type 2) and not a beacon.
pub open spec fn rx_is_data(b: Seq<u8>) -> bool {
    let fc = b[rx_header_len(b)];
    rx_mpdu_len(b) >= 2 && !rx_is_beacon(b) && (fc >> 2) & 0x03 == 2
}

/// The information decoded from an RX buffer holding an 802.11 frame.
pub open spec fn rx_frame_info(b: Seq<u8>, rssi_offset: i8) -> RxInfo {
    RxInfo {
        pkt_len: rx_mpdu_len(b) as u16,
        hdr_len: rx_header_len(b) as u16,
        rssi: rx_rssi(b, rssi_offset),
        channel: b[5],
        rate: 0,
        is_beacon: if rx_is_beacon(b) { 1 } else { 0 },
        is_data: if rx_is_data(b) { 1 } else { 0 },
        is_crc_error: (b[10] >> 1) & 0x01,
    }
}

/// The information reported for a packet that carries no 802.11 frame.
pub open spec fn rx_empty_info() -> RxInfo {
    RxInfo {
        pkt_len: 0,
        hdr_len: 0,
        rssi: 0,
        channel: 0,
        rate: 0,
        is_beacon: 0,
        is_data: 0,
        is_crc_error: 0,
    }
}

/// Parses an RX buffer (descriptor followed by the 802.11 frame).
///
/// Buffers shorter than the 16-byte fixed descriptor are refused with -22
/// (EINVAL). Packets of a type other than normal or duplicate RX are reported
/// with all-zero information. Otherwise buffers shorter than their descriptor
/// are refused with -22, and the frame is decoded.
pub fn parse_rx_frame(buf: &[u8], rssi_offset: i8) -> (r: Result<RxInfo, i32>)
    ensures
        match r {
            Ok(info) => {
                &&& buf@.len() >= RMAC_RXD_MIN_SIZE
                &&& !rx_is_frame(buf@) ==> info == rx_empty_info()
                &&& rx_is_frame(buf@) ==> buf@.len() >= rx_header_len(buf@) && info
                    == rx_frame_info(buf@, rssi_offset)
                // descriptor and frame lie within the buffer
                &&& info.hdr_len + info.pkt_len <= buf@.len()
                // a frame is a beacon, a data frame, or neither
                &&& info.is_beacon <= 1 && info.is_data <= 1 && info.is_crc_error <= 1
                &&& !(info.is_beacon == 1 && info.is_data == 1)
            },
            Err(e) => {
                &&& e == -22
                &&& buf@.len() < RMAC_RXD_MIN_SIZE || (rx_is_frame(buf@) && buf@.len()
                    < rx_header_len(buf@))
            },
        },
{
    if buf.len() < RMAC_RXD_MIN_SIZE {
        return Err(-22);
    }
    let ghost b = buf@;

    let rx_byte_cnt = (buf[0] as u16) | ((buf[1] as u16) << 8);
    let grp_vld = (buf[3] >> 1) & 0x0F;
    let pkt_type = (buf[3] >> 5) & 0x07;

    if pkt_type != 0x02 && pkt_type != 0x03 {
        return Ok(
            RxInfo {
                pkt_len: 0,
                hdr_len: 0,
                rssi: 0,
                channel: 0,
                rate: 0,
                is_beacon: 0,
                is_data: 0,
                is_crc_error: 0,
            },
        );
    }

    let mut rmac_info_len: usize = RMAC_RXD_MIN_SIZE;
    if (grp_vld & 0x08) != 0 {
        rmac_info_len += 16;  // group 4
    }
    if (grp_vld & 0x01) != 0 {
        rmac_info_len += 16;  // group 1 (RX status)
    }
    if (grp_vld & 0x02) != 0 {
        rmac_info_len += 8;  // group 2 (RX timestamp)
    }
    let grp3_off = rmac_info_len;
    if (grp_vld & 0x04) != 0 {
        rmac_info_len += 24;  // group 3 (RX vector)
    }
    let hdr_offset = (buf[6] >> 6) & 0x01;
    if hdr_offset == 1 {
        rmac_info_len += 2;
    }
    assert(grp3_off == rx_group3_offset(grp_vld));
    assert(rmac_info_len == rx_header_len(b));

    let fcs_err = (buf[10] >> 1) & 0x01;

    if buf.len() < rmac_info_len {
        return Err(-22);
    }

    let mut rssi: i8 = 0;
    if (grp_vld & 0x04) != 0 && pkt_type == 0x02 {
        let ibrssi0 = buf[grp3_off + 12] as i8;
        if ibrssi0 != 0 {
            let s = ibrssi0 as i16 + rssi_offset as i16;
            rssi = if s > 127 {
                127
            } else if s < -128 {
                -128
            } else {
                s as i8
            };
        }
    }

    let total_len = if (rx_byte_cnt as usize) <= buf.len() && rx_byte_cnt > 0 {
        rx_byte_cnt as usize
    } else {
        buf.len()
    };
    let mpdu_len = if total_len >= rmac_info_len {
        total_len - rmac_info_len
    } else {
        0
    };
    assert(mpdu_len == rx_mpdu_len(b));

    let mut is_beacon: u8 = 0;
    let mut is_data: u8 = 0;
    let beacon_mc = (buf[4] >> 4) & 0x01;
    let beacon_uc = (buf[4] >> 5) & 0x01;
    if mpdu_len >= 2 {
        let frame_ctrl = buf[rmac_info_len];
        let frame_type = (frame_ctrl >> 2) & 0x03;
        let frame_subtype = (frame_ctrl >> 4) & 0x0F;
        if (frame_type == 0 && frame_subtype == 8) || beacon_mc != 0 || beacon_uc != 0 {
            is_beacon = 1;
        } else if frame_type == 2 {
            is_data = 1;
        }
    }

    let info = RxInfo {
        pkt_len: mpdu_len as u16,
        hdr_len: rmac_info_len as u16,
        rssi,
        channel: buf[5],
        rate: 0,
        is_beacon,
        is_data,
        is_crc_error: fcs_err,
    };
    let b10 = buf[10];
    assert(fcs_err <= 1) by (bit_vector)
        requires
            fcs_err == (b10 >> 1) & 0x01,
    ;
    assert(info == rx_frame_info(b, rssi_offset));
    Ok(info)
}

/// How a received 802.11 frame is classified, by its frame control byte `fc`
/// (the first byte after the descriptor) and the two beacon flags of the
/// descriptor (byte 4, bits 4 and 5), for frames of at least 2 bytes:
/// - with a beacon flag set, the frame is a beacon;
/// - otherwise it is a beacon exactly when it is a management frame
///   (type bits 3:2 = 0) of subtype 8 (bits 7:4), i.e. `fc & 0xFC == 0x80`;
/// - it is a data frame exactly when no beacon flag is set and its type bits
///   are 2, i.e. `fc & 0x0C == 0x08`.
/// Shorter frames are neither. The channel is descriptor byte 5 and the CRC
/// error flag is bit 1 of byte 10.
pub proof fn lemma_rx_frame_classification(b: Seq<u8>, rssi_offset: i8)
    requires
        b.len() >= RMAC_RXD_MIN_SIZE,
        rx_is_frame(b),
        b.len() >= rx_header_len(b),
    ensures
        ({
            let info = rx_frame_info(b, rssi_offset);
            let fc = b[rx_header_len(b)];
            let flags = b[4] & 0x30;
            &&& rx_mpdu_len(b) < 2 ==> info.is_beacon == 0 && info.is_data == 0
            &&& rx_mpdu_len(b) >= 2 && flags != 0 ==> info.is_beacon == 1 && info.is_data == 0
            &&& rx_mpdu_len(b) >= 2 && flags == 0 ==> (info.is_beacon == 1 <==> fc & 0xfc == 0x80)
                && (info.is_data == 1 <==> fc & 0x0c == 0x08)
            &&& info.channel == b[5]
            &&& (info.is_crc_error == 1 <==> b[10] & 0x02 != 0)
        }),
{
    let fc = b[rx_header_len(b)];
    let b4 = b[4];
    let b10 = b[10];
    assert((((fc >> 2) & 0x03) == 0 && ((fc >> 4) & 0x0F) == 8) <==> fc & 0xfc == 0x80)
        by (bit_vector);
    assert((((fc >> 2) & 0x03) == 2) <==> fc & 0x0c == 0x08) by (bit_vector);
    assert(fc & 0x0c == 0x08 ==> fc & 0xfc != 0x80) by (bit_vector);
    assert(((b4 >> 4) & 0x01 != 0 || (b4 >> 5) & 0x01 != 0) <==> b4 & 0x30 != 0) by (bit_vector);
    assert((((b10 >> 1) & 0x01) == 1 <==> b10 & 0x02 != 0) && ((b10 >> 1) & 0x01) <= 1)
        by (bit_vector);
}

/// The descriptor length counts 16 fixed bytes, 16 for group 4, 16 for
/// group 1, 8 for group 2, 24 for group 3 (the group-valid bits 0..3 of
/// byte 3 >> 1) and 2 when the header-offset bit (byte 6, bit 6) is set. The
/// RSSI of a normal packet with group 3 is the signed byte 12 bytes into
/// group 3 (after the fixed part and groups 4, 1, 2) plus the calibration
/// offset, saturated to -128..127, or 0 when that byte is 0; a
/// duplicate-RFB packet reports 0.
pub proof fn lemma_rx_descriptor_layout(b: Seq<u8>, rssi_offset: i8)
    requires
        b.len() >= RMAC_RXD_MIN_SIZE,
    ensures
        ({
            let g4: int = if b[3] & 0x10 != 0 { 1 } else { 0 };
            let g1: int = if b[3] & 0x02 != 0 { 1 } else { 0 };
            let g2: int = if b[3] & 0x04 != 0 { 1 } else { 0 };
            let g3: int = if b[3] & 0x08 != 0 { 1 } else { 0 };
            let ho: int = if b[6] & 0x40 != 0 { 1 } else { 0 };
            let ib_pos = 16 + 16 * g4 + 16 * g1 + 8 * g2 + 12;
            let r = rx_rssi(b, rssi_offset) as int;
            &&& rx_header_len(b) == 16 + 16 * g4 + 16 * g1 + 8 * g2 + 24 * g3 + 2 * ho
            &&& (g3 == 0 || b[3] & 0xe0 != 0x40) ==> r == 0
            &&& g3 == 1 && b[3] & 0xe0 == 0x40 && b[ib_pos] == 0 ==> r == 0
            &&& g3 == 1 && b[3] & 0xe0 == 0x40 && b[ib_pos] != 0 ==> {
                let raw = (b[ib_pos] as i8) as int + rssi_offset as int;
                r == (if raw > 127 { 127 } else if raw < -128 { -128 } else { raw })
            }
        }),
{
    let b3 = b[3];
    let b6 = b[6];
    let g = rx_grp_vld(b);
    assert(g == (b3 >> 1) & 0x0F);
    assert((((b3 >> 1) & 0x0F) & 0x08 != 0 <==> b3 & 0x10 != 0) && (((b3 >> 1) & 0x0F) & 0x01 != 0
        <==> b3 & 0x02 != 0) && (((b3 >> 1) & 0x0F) & 0x02 != 0 <==> b3 & 0x04 != 0) && (((b3 >> 1)
        & 0x0F) & 0x04 != 0 <==> b3 & 0x08 != 0)) by (bit_vector);
    assert(((b3 >> 5) & 0x07 == 0x02) <==> b3 & 0xe0 == 0x40) by (bit_vector);
    assert(((b6 >> 6) & 0x01 == 1) <==> b6 & 0x40 != 0) by (bit_vector);
    assert(rx_group3_offset(g) == 16 + (if b3 & 0x10 != 0 { 16int } else { 0 }) + (if b3 & 0x02
        != 0 { 16int } else { 0 }) + (if b3 & 0x04 != 0 { 8int } else { 0 }));
    let a = b[rx_group3_offset(g) + 12] as i8;
    let s = a as int + rssi_offset as int;
    if -128 <= s <= 127 {
        assert((s as i8) as int == s);
    }
    let x = b[rx_group3_offset(g) + 12];
    assert(x == 0 <==> (x as i8) == 0) by (bit_vector);
}

} // verus!
