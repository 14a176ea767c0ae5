//! TX descriptor construction: the 32-byte long TXD (TMAC_TXD_L) put in front
//! of every transmitted 802.11 frame.

use crate::ffi::TxParams;
use crate::util::{le32, le32_bytes, write_at, zeros};
use vstd::prelude::*;

verus! {

/// Size of the long TX descriptor.
pub const TXWI_SIZE: usize = 32;

pub const P_IDX_LMAC: u32 = 0;
pub const TMI_HDR_FT_NOR_80211: u32 = 0x2;
pub const TMI_FT_LONG: u32 = 0x1;
pub const MT_TX_SHORT_RETRY: u32 = 0x0f;
pub const TMI_DAS_FROM_MPDU: u32 = 0;
pub const TMI_BSN_CFG_BY_SW: u32 = 0x1;
pub const TMI_PM_BIT_CFG_BY_HW: u32 = 0x0;
pub const TMI_HDR_PAD_MODE_TAIL: u32 = 0;

// Rate PHY modes
pub const MODE_CCK: u32 = 0;
pub const MODE_OFDM: u32 = 1;
pub const MODE_HTMIX: u32 = 2;
pub const MODE_HTGF: u32 = 3;
pub const SHORT_PREAMBLE: u32 = 0;
pub const LONG_PREAMBLE: u32 = 1;
pub const TMI_TX_RATE_BIT_MODE: u32 = 6;
pub const TMI_TX_RATE_BIT_NSS: u32 = 9;
pub const TMI_TX_RATE_BIT_STBC: u32 = 11;
pub const TMI_TX_RATE_MASK_NSS: u32 = 0x3;

/// CCK rate IDs with long preamble, by MCS (1, 2, 5.5, 11 Mbit/s).
pub open spec fn tmi_rate_cck_long() -> Seq<u32> {
    seq![0u32, 1, 2, 3]
}

/// CCK rate IDs with short preamble, by MCS.
pub open spec fn tmi_rate_cck_short() -> Seq<u32> {
    seq![5u32, 5, 6, 7]
}

/// OFDM rate IDs, by MCS (6, 9, 12, 18, 24, 36, 48, 54 Mbit/s).
pub open spec fn tmi_rate_ofdm() -> Seq<u32> {
    seq![11u32, 15, 10, 14, 9, 13, 8, 12]
}

/// The rate index of a PHY mode / MCS pair is defined: CCK has 4 MCS values,
/// OFDM 8, and the HT modes need at least one spatial stream.
pub open spec fn tx_rate_defined(rate_mode: u32, mcs: u32, nss: u32) -> bool {
    &&& rate_mode == MODE_CCK ==> mcs < 4
    &&& rate_mode == MODE_OFDM ==> mcs < 8
    &&& (rate_mode == MODE_HTMIX || rate_mode == MODE_HTGF) ==> nss >= 1
}

/// The TMI rate field of a PHY mode / MCS pair.
pub open spec fn spec_tx_rate_to_tmi(rate_mode: u32, mcs: u32, stbc: u32, nss: u32, preamble: u32) -> u32 {
    if rate_mode == MODE_CCK {
        let mcs_id = if preamble == LONG_PREAMBLE {
            tmi_rate_cck_long()[mcs as int]
        } else {
            tmi_rate_cck_short()[mcs as int]
        };
        (MODE_CCK << TMI_TX_RATE_BIT_MODE) | mcs_id
    } else if rate_mode == MODE_OFDM {
        (MODE_OFDM << TMI_TX_RATE_BIT_MODE) | tmi_rate_ofdm()[mcs as int]
    } else if rate_mode == MODE_HTMIX || rate_mode == MODE_HTGF {
        (stbc << TMI_TX_RATE_BIT_STBC) | ((((nss - 1) as u32) & TMI_TX_RATE_MASK_NSS)
            << TMI_TX_RATE_BIT_NSS) | (rate_mode << TMI_TX_RATE_BIT_MODE) | mcs
    } else {
        0
    }
}

/// Maps a PHY mode / MCS pair to the TMI rate field.
pub fn tx_rate_to_tmi(rate_mode: u32, mcs: u32, stbc: u32, nss: u32, preamble: u32) -> (r: u32)
    requires
        tx_rate_defined(rate_mode, mcs, nss),
    ensures
        r == spec_tx_rate_to_tmi(rate_mode, mcs, stbc, nss, preamble),
{
    if rate_mode == MODE_CCK {
        let long: [u32; 4] = [0, 1, 2, 3];
        let short: [u32; 4] = [5, 5, 6, 7];
        assert(long@ =~= tmi_rate_cck_long());
        assert(short@ =~= tmi_rate_cck_short());
        let mcs_id = if preamble == LONG_PREAMBLE {
            long[mcs as usize]
        } else {
            short[mcs as usize]
        };
        (MODE_CCK << TMI_TX_RATE_BIT_MODE) | mcs_id
    } else if rate_mode == MODE_OFDM {
        let ofdm: [u32; 8] = [11, 15, 10, 14, 9, 13, 8, 12];
        assert(ofdm@ =~= tmi_rate_ofdm());
        (MODE_OFDM << TMI_TX_RATE_BIT_MODE) | ofdm[mcs as usize]
    } else if rate_mode == MODE_HTMIX || rate_mode == MODE_HTGF {
        (stbc << TMI_TX_RATE_BIT_STBC) | (((nss - 1) & TMI_TX_RATE_MASK_NSS) << TMI_TX_RATE_BIT_NSS)
            | (rate_mode << TMI_TX_RATE_BIT_MODE) | mcs
    } else {
        0
    }
}

/// Padding that brings the 802.11 header to a multiple of 4 bytes.
pub open spec fn hdr_pad_len(hdr_len: u8) -> u32 {
    ((4 - ((hdr_len as u32) & 0x03)) as u32) & 0x03
}

/// Bytes the hardware transmits for the frame: descriptor, header padding and
/// 802.11 frame.
pub open spec fn tx_byte_cnt(p: TxParams) -> u32 {
    ((p.pkt_len as u32) + hdr_pad_len(p.hdr_len) + TXWI_SIZE as u32) as u32
}

/// DW0: TX byte count (descriptor, padding and frame) in bits 15:0, queue in
/// bits 30:27, LMAC port.
pub open spec fn txd_dw0(p: TxParams) -> u32 {
    tx_byte_cnt(p) | (((p.queue as u32) & 0x0f) << 27) | (P_IDX_LMAC << 31)
}

/// DW1: WLAN index, header length in half words, 802.11 header format, long
/// descriptor, header padding (tail mode), no-ACK bit (19), protect-frame bit
/// (23).
pub open spec fn txd_dw1(p: TxParams) -> u32 {
    let h = p.hdr_len as u32;
    let hdr_pad = (TMI_HDR_PAD_MODE_TAIL << 2) | (hdr_pad_len(p.hdr_len) & 0x03);
    ((p.pid as u32) & 0xff) | (((h >> 1) & 0x1f) << 8) | (TMI_HDR_FT_NOR_80211 << 13) | (
    TMI_FT_LONG << 15) | ((hdr_pad & 0x07) << 16) | (((p.no_ack as u32) & 0x1) << 19) | (((
    p.protect_frm as u32) & 0x1) << 23)
}

/// DW2: subtype, type, broadcast/multicast bit, BA disabled, fixed rate.
pub open spec fn txd_dw2(p: TxParams) -> u32 {
    ((p.sub_type as u32) & 0x0f) | (((p.frm_type as u32) & 0x03) << 4) | (((p.is_bm as u32) & 0x1)
        << 10) | (1u32 << 29) | (1u32 << 31)
}

/// DW3: remaining TX count of the short retry limit.
pub open spec fn txd_dw3() -> u32 {
    (MT_TX_SHORT_RETRY & 0x1f) << 11
}

/// DW5: DA from the MPDU, BAR sequence number set by software, power
/// management bit set by hardware.
pub open spec fn txd_dw5() -> u32 {
    (TMI_DAS_FROM_MPDU << 11) | (TMI_BSN_CFG_BY_SW << 12) | (TMI_PM_BIT_CFG_BY_HW << 13)
}

/// DW6: bandwidth field, spatial extension enabled, TX rate in bits 29:18.
pub open spec fn txd_dw6(p: TxParams) -> u32 {
    let tx_rate = spec_tx_rate_to_tmi(
        p.rate_mode as u32,
        p.rate_mcs as u32,
        0,
        1,
        p.preamble as u32,
    );
    let bw_field = (1u32 << 2) | ((p.bw as u32) & 0x3);
    (bw_field << 8) | (1u32 << 11) | ((tx_rate & 0x0fff) << 18)
}

/// The 32 descriptor bytes: DW0..DW7 little-endian, DW4 and DW7 zero.
pub open spec fn txwi_bytes(p: TxParams) -> Seq<u8> {
    le32(txd_dw0(p)) + le32(txd_dw1(p)) + le32(txd_dw2(p)) + le32(txd_dw3()) + zeros(4) + le32(
        txd_dw5(),
    ) + le32(txd_dw6(p)) + zeros(4)
}

/// The TX byte count (descriptor, header padding and frame) fits the 16-bit
/// field of DW0.
pub open spec fn tx_len_fits(p: TxParams) -> bool {
    p.pkt_len + hdr_pad_len(p.hdr_len) + TXWI_SIZE <= 0xffff
}

/// Writes the 32-byte TX descriptor for `params` to the front of `out_buf`.
///
/// Outcomes, in order of the checks: -28 (ENOSPC) when `out_buf` is shorter
/// than 32 bytes, and -22 (EINVAL) when the TX byte count (frame length,
/// header padding and 32) exceeds the 16-bit field, both with `out_buf`
/// untouched; -22 when the header length is odd, with the first 32 bytes of
/// `out_buf` zeroed; otherwise `Ok(32)` with the descriptor in the first 32
/// bytes. The rest of `out_buf` is never touched.
pub fn build_txwi(params: &TxParams, out_buf: &mut [u8]) -> (r: Result<usize, i32>)
    requires
        old(out_buf)@.len() >= TXWI_SIZE && tx_len_fits(*params) && params.hdr_len % 2 == 0
            ==> tx_rate_defined(params.rate_mode as u32, params.rate_mcs as u32, 1),
    ensures
        old(out_buf)@.len() < TXWI_SIZE ==> r == Err::<usize, i32>(-28i32) && final(out_buf)@ == old(
            out_buf,
        )@,
        old(out_buf)@.len() >= TXWI_SIZE && !tx_len_fits(*params) ==> r == Err::<usize, i32>(-22i32)
            && final(out_buf)@ == old(out_buf)@,
        old(out_buf)@.len() >= TXWI_SIZE && tx_len_fits(*params) && params.hdr_len % 2 == 1 ==> r
            == Err::<usize, i32>(-22i32) && final(out_buf)@ == zeros(TXWI_SIZE as nat) + old(
            out_buf,
        )@.skip(TXWI_SIZE as int),
        old(out_buf)@.len() >= TXWI_SIZE && tx_len_fits(*params) && params.hdr_len % 2 == 0 ==> r
            == Ok::<usize, i32>(TXWI_SIZE) && final(out_buf)@ == txwi_bytes(*params) + old(
            out_buf,
        )@.skip(TXWI_SIZE as int),
        r is Ok ==> tx_byte_cnt(*params) <= 0xffff,
{
    if out_buf.len() < TXWI_SIZE {
        return Err(-28);
    }
    let hdr_len = params.hdr_len as u32;
    assert(hdr_len & 0x03 <= 3) by (bit_vector);
    let hdr_pad_len = (4 - (hdr_len & 0x03)) & 0x03;
    assert(((4 - (hdr_len & 0x03)) as u32) & 0x03 <= 3) by (bit_vector);
    if params.pkt_len as u32 + hdr_pad_len + TXWI_SIZE as u32 > 0xffff {
        return Err(-22);
    }

    let zero = [0u8; 32];
    assert(zero@ =~= zeros(32));
    write_at(out_buf, 0, &zero);
    assert(old(out_buf)@.take(0) + zero@ =~= zeros(32));

    if hdr_len & 1 != 0 {
        assert(hdr_len & 1 != 0 ==> hdr_len % 2 == 1) by (bit_vector);
        return Err(-22);
    }
    assert(hdr_len & 1 == 0 ==> hdr_len % 2 == 0) by (bit_vector);

    let hdr_pad = (TMI_HDR_PAD_MODE_TAIL << 2) | (hdr_pad_len & 0x03);

    let dw0 = ((params.pkt_len as u32) + hdr_pad_len + TXWI_SIZE as u32) | ((params.queue as u32
        & 0x0f) << 27) | (P_IDX_LMAC << 31);
    let dw1 = (params.pid as u32 & 0xff) | (((hdr_len >> 1) & 0x1f) << 8) | (TMI_HDR_FT_NOR_80211
        << 13) | (TMI_FT_LONG << 15) | ((hdr_pad & 0x07) << 16) | ((params.no_ack as u32 & 0x1)
        << 19) | ((params.protect_frm as u32 & 0x1) << 23);
    let dw2 = (params.sub_type as u32 & 0x0f) | ((params.frm_type as u32 & 0x03) << 4) | ((
    params.is_bm as u32 & 0x1) << 10) | (1 << 29) | (1 << 31);
    let dw3 = (MT_TX_SHORT_RETRY & 0x1f) << 11;
    let dw5 = (TMI_DAS_FROM_MPDU << 11) | (TMI_BSN_CFG_BY_SW << 12) | (TMI_PM_BIT_CFG_BY_HW << 13);
    let tx_rate = tx_rate_to_tmi(
        params.rate_mode as u32,
        params.rate_mcs as u32,
        0,
        1,
        params.preamble as u32,
    );
    let bw_field = (1 << 2) | (params.bw as u32 & 0x3);
    let dw6 = (bw_field << 8) | (1 << 11) | ((tx_rate & 0x0fff) << 18);

    let b0 = le32_bytes(dw0);
    let b1 = le32_bytes(dw1);
    let b2 = le32_bytes(dw2);
    let b3 = le32_bytes(dw3);
    let b5 = le32_bytes(dw5);
    let b6 = le32_bytes(dw6);
    let txd: [u8; 32] = [
        b0[0], b0[1], b0[2], b0[3],
        b1[0], b1[1], b1[2], b1[3],
        b2[0], b2[1], b2[2], b2[3],
        b3[0], b3[1], b3[2], b3[3],
        0, 0, 0, 0,
        b5[0], b5[1], b5[2], b5[3],
        b6[0], b6[1], b6[2], b6[3],
        0, 0, 0, 0,
    ];
    assert(txd@ =~= txwi_bytes(*params));
    let ghost zeroed = out_buf@;
    write_at(out_buf, 0, &txd);
    assert(zeroed.take(0) + txd@ + zeroed.skip(32) =~= txwi_bytes(*params) + old(out_buf)@.skip(
        32,
    ));
    Ok(TXWI_SIZE)
}

/// The header padding brings every even 802.11 header length to a multiple
/// of 4 bytes.
pub proof fn lemma_txwi_header_padding_aligns(hdr_len: u8)
    requires
        hdr_len % 2 == 0,
    ensures
        ((hdr_len as u32) + hdr_pad_len(hdr_len)) % 4 == 0,
        hdr_pad_len(hdr_len) <= 2,
{
    let h = hdr_len as u32;
    assert(h < 256 && h % 2 == 0 ==> (h + (((4 - (h & 0x03)) as u32) & 0x03)) % 4 == 0)
        by (bit_vector);
    assert(h % 2 == 0 ==> ((4 - (h & 0x03)) as u32) & 0x03 <= 2) by (bit_vector);
}

/// The TX byte count field of DW0 is the descriptor, padding and frame length,
/// and the queue field is the queue, whenever that count fits in 16 bits (as
/// it does for every descriptor that `build_txwi` writes).
pub proof fn lemma_txwi_dw0_fields(p: TxParams)
    requires
        tx_len_fits(p),
    ensures
        txd_dw0(p) & 0xffff == (p.pkt_len as u32) + hdr_pad_len(p.hdr_len) + TXWI_SIZE as u32,
        (txd_dw0(p) >> 27) & 0x0f == (p.queue as u32) & 0x0f,
{
    let c = tx_byte_cnt(p);
    let q = p.queue as u32;
    assert(c <= 0xffff ==> (c | ((q & 0x0f) << 27) | (0u32 << 31)) & 0xffff == c) by (bit_vector);
    assert(c <= 0xffff ==> ((c | ((q & 0x0f) << 27) | (0u32 << 31)) >> 27) & 0x0f == q & 0x0f)
        by (bit_vector);
}

/// Bit 23 of DW1 (protect frame) carries the low bit of `protect_frm`, and
/// bit 19 (no ACK) the low bit of `no_ack`.
pub proof fn lemma_txwi_dw1_flags(p: TxParams)
    ensures
        (txd_dw1(p) >> 23) & 1 == (p.protect_frm as u32) & 1,
        (txd_dw1(p) >> 19) & 1 == (p.no_ack as u32) & 1,
{
    let pid = p.pid as u32;
    let h = p.hdr_len as u32;
    let pad = hdr_pad_len(p.hdr_len);
    let na = p.no_ack as u32;
    let pf = p.protect_frm as u32;
    assert(pad <= 3) by {
        assert(((4 - (h & 0x03)) as u32) & 0x03 <= 3) by (bit_vector);
    }
    assert(((((pid & 0xff) | (((h >> 1) & 0x1f) << 8) | (2u32 << 13) | (1u32 << 15) | ((((0u32
        << 2) | (pad & 0x03)) & 0x07) << 16) | ((na & 0x1) << 19) | ((pf & 0x1) << 23)) >> 23) & 1
        == pf & 1) && ((((pid & 0xff) | (((h >> 1) & 0x1f) << 8) | (2u32 << 13) | (1u32 << 15) | ((((
    0u32 << 2) | (pad & 0x03)) & 0x07) << 16) | ((na & 0x1) << 19) | ((pf & 0x1) << 23)) >> 19) & 1
        == na & 1)) by (bit_vector)
        requires
            pad <= 3,
    ;
}

/// The rate codes of the legacy PHY modes, whatever the STBC and stream
/// arguments:
/// - OFDM (mode 1) at 6, 9, 12, 18, 24, 36, 48 and 54 Mbit/s (MCS 0 to 7)
///   gives mode bits `1 << 6` with the rate IDs 11, 15, 10, 14, 9, 13, 8, 12;
/// - CCK (mode 0) at 1, 2, 5.5 and 11 Mbit/s (MCS 0 to 3) gives the IDs
///   0, 1, 2, 3 with the long preamble and 5, 5, 6, 7 with the short one.
pub proof fn lemma_legacy_rate_codes(stbc: u32, nss: u32, preamble: u32)
    ensures
        spec_tx_rate_to_tmi(1, 0, stbc, nss, preamble) == 75,
        spec_tx_rate_to_tmi(1, 1, stbc, nss, preamble) == 79,
        spec_tx_rate_to_tmi(1, 2, stbc, nss, preamble) == 74,
        spec_tx_rate_to_tmi(1, 3, stbc, nss, preamble) == 78,
        spec_tx_rate_to_tmi(1, 4, stbc, nss, preamble) == 73,
        spec_tx_rate_to_tmi(1, 5, stbc, nss, preamble) == 77,
        spec_tx_rate_to_tmi(1, 6, stbc, nss, preamble) == 72,
        spec_tx_rate_to_tmi(1, 7, stbc, nss, preamble) == 76,
        preamble == 1 ==> spec_tx_rate_to_tmi(0, 0, stbc, nss, preamble) == 0
            && spec_tx_rate_to_tmi(0, 1, stbc, nss, preamble) == 1 && spec_tx_rate_to_tmi(
            0,
            2,
            stbc,
            nss,
            preamble,
        ) == 2 && spec_tx_rate_to_tmi(0, 3, stbc, nss, preamble) == 3,
        preamble != 1 ==> spec_tx_rate_to_tmi(0, 0, stbc, nss, preamble) == 5
            && spec_tx_rate_to_tmi(0, 1, stbc, nss, preamble) == 5 && spec_tx_rate_to_tmi(
            0,
            2,
            stbc,
            nss,
            preamble,
        ) == 6 && spec_tx_rate_to_tmi(0, 3, stbc, nss, preamble) == 7,
{
    assert((1u32 << 6) == 64 && (0u32 << 6) == 0) by (bit_vector);
    assert((64u32 | 11) == 75 && (64u32 | 15) == 79 && (64u32 | 10) == 74 && (64u32 | 14) == 78
        && (64u32 | 9) == 73 && (64u32 | 13) == 77 && (64u32 | 8) == 72 && (64u32 | 12) == 76)
        by (bit_vector);
    assert((0u32 | 0) == 0 && (0u32 | 1) == 1 && (0u32 | 2) == 2 && (0u32 | 3) == 3 && (0u32 | 5)
        == 5 && (0u32 | 6) == 6 && (0u32 | 7) == 7) by (bit_vector);
}

/// The HT rate code carries the MCS in bits 5:0, the PHY mode in bits 8:6,
/// the stream count less one in bits 10:9 and STBC in bit 11.
pub proof fn lemma_ht_rate_code_fields(rate_mode: u32, mcs: u32, stbc: u32, nss: u32, preamble: u32)
    requires
        rate_mode == MODE_HTMIX || rate_mode == MODE_HTGF,
        mcs < 64,
        stbc <= 1,
        1 <= nss <= 4,
    ensures
        ({
            let r = spec_tx_rate_to_tmi(rate_mode, mcs, stbc, nss, preamble);
            &&& r & 0x3f == mcs
            &&& (r >> 6) & 0x7 == rate_mode
            &&& (r >> 9) & 0x3 == nss - 1
            &&& (r >> 11) & 0x1 == stbc
        }),
{
    let n1 = (nss - 1) as u32;
    assert(n1 <= 3);
    assert(mcs < 64 && stbc <= 1 && n1 <= 3 && (rate_mode == 2 || rate_mode == 3) ==> ({
        let r = (stbc << 11) | ((n1 & 3) << 9) | (rate_mode << 6) | mcs;
        &&& r & 0x3f == mcs
        &&& (r >> 6) & 0x7 == rate_mode
        &&& (r >> 9) & 0x3 == n1
        &&& (r >> 11) & 0x1 == stbc
    })) by (bit_vector);
}

/// DW6 carries the rate code in bits 29:18, the bandwidth field (bit 2 set,
/// the bandwidth in bits 1:0) in bits 10:8 and the spatial-extension bit 11.
pub proof fn lemma_txwi_dw6_fields(p: TxParams)
    ensures
        (txd_dw6(p) >> 18) & 0xfff == spec_tx_rate_to_tmi(
            p.rate_mode as u32,
            p.rate_mcs as u32,
            0,
            1,
            p.preamble as u32,
        ) & 0xfff,
        (txd_dw6(p) >> 8) & 0x7 == 4 | ((p.bw as u32) & 0x3),
        (txd_dw6(p) >> 11) & 0x1 == 1,
{
    let t = spec_tx_rate_to_tmi(p.rate_mode as u32, p.rate_mcs as u32, 0, 1, p.preamble as u32);
    let bw = p.bw as u32;
    assert(({
        let w = ((((1u32 << 2) | (bw & 0x3)) << 8) | (1u32 << 11) | ((t & 0x0fff) << 18));
        &&& (w >> 18) & 0xfff == t & 0xfff
        &&& (w >> 8) & 0x7 == 4 | (bw & 0x3)
        &&& (w >> 11) & 0x1 == 1
    })) by (bit_vector);
}

/// The remaining descriptor fields: DW1 holds the WLAN index in bits 7:0,
/// the header length in half words in bits 12:8, header format 2 (802.11) in
/// bits 14:13, the long-descriptor bit 15 and the header padding in bits
/// 18:16; DW2 holds the subtype in bits 3:0, the type in bits 5:4, the
/// broadcast/multicast bit 10, BA disabled (bit 29) and fixed rate (bit 31);
/// DW3 holds 15 remaining transmissions in bits 15:11.
pub proof fn lemma_txwi_dw1_dw2_fields(p: TxParams)
    requires
        p.hdr_len % 2 == 0,
    ensures
        txd_dw1(p) & 0xff == p.pid,
        (txd_dw1(p) >> 8) & 0x1f == ((p.hdr_len / 2) as u32) & 0x1f,
        (txd_dw1(p) >> 13) & 0x3 == 2,
        (txd_dw1(p) >> 15) & 0x1 == 1,
        (txd_dw1(p) >> 16) & 0x7 == hdr_pad_len(p.hdr_len),
        (p.hdr_len as int + hdr_pad_len(p.hdr_len)) % 4 == 0,
        txd_dw2(p) & 0xf == (p.sub_type as u32) & 0xf,
        (txd_dw2(p) >> 4) & 0x3 == (p.frm_type as u32) & 0x3,
        (txd_dw2(p) >> 10) & 0x1 == (p.is_bm as u32) & 0x1,
        (txd_dw2(p) >> 29) & 0x1 == 1,
        (txd_dw2(p) >> 31) & 0x1 == 1,
        (txd_dw3() >> 11) & 0x1f == 15,
{
    let pid = p.pid as u32;
    let h = p.hdr_len as u32;
    let na = p.no_ack as u32;
    let pf = p.protect_frm as u32;
    let st = p.sub_type as u32;
    let ft = p.frm_type as u32;
    let bm = p.is_bm as u32;
    lemma_txwi_header_padding_aligns(p.hdr_len);
    let pad = hdr_pad_len(p.hdr_len);
    assert(h < 256 && h % 2 == 0 ==> h >> 1 == h / 2) by (bit_vector);
    assert((((pid & 0xff) | (((h >> 1) & 0x1f) << 8) | (2u32 << 13) | (1u32 << 15) | ((((0u32 << 2)
        | (pad & 0x03)) & 0x07) << 16) | ((na & 0x1) << 19) | ((pf & 0x1) << 23)) == txd_dw1(p)));
    assert(({
        let w = (pid & 0xff) | (((h >> 1) & 0x1f) << 8) | (2u32 << 13) | (1u32 << 15) | ((((0u32
            << 2) | (pad & 0x03)) & 0x07) << 16) | ((na & 0x1) << 19) | ((pf & 0x1) << 23);
        &&& w & 0xff == pid
        &&& (w >> 8) & 0x1f == (h >> 1) & 0x1f
        &&& (w >> 13) & 0x3 == 2
        &&& (w >> 15) & 0x1 == 1
        &&& (w >> 16) & 0x7 == pad
    })) by (bit_vector)
        requires
            pid < 256,
            pad <= 3,
    ;
    assert(({
        let w = (st & 0x0f) | ((ft & 0x03) << 4) | ((bm & 0x1) << 10) | (1u32 << 29) | (1u32
            << 31);
        &&& w & 0xf == st & 0xf
        &&& (w >> 4) & 0x3 == ft & 0x3
        &&& (w >> 10) & 0x1 == bm & 0x1
        &&& (w >> 29) & 0x1 == 1
        &&& (w >> 31) & 0x1 == 1
    })) by (bit_vector);
    assert(((0x0fu32 & 0x1f) << 11) >> 11 & 0x1f == 15) by (bit_vector);
}

} // verus!
