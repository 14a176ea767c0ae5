//! MCU firmware download and command frame builder.
//!
//! Every command sent to the Andes MCU is an FW_TXD header followed by the
//! command payload. The header is 12 bytes during firmware download and
//! 32 bytes (12 bytes of fields and 20 reserved zero bytes) once the firmware
//! runs.

use crate::util::{
    append_at, frame_written, from_le32, le16, le32, le32_bytes, lemma_le32_roundtrip, ones, zeros,
};
use vstd::prelude::*;

verus! {

pub const FW_TXD_HDR_SIZE: usize = 12;
pub const USB_END_PADDING: usize = 4;
pub const MT7603_E2_FW_SIZE: usize = 74372;

// Command IDs
pub const MT_TARGET_ADDRESS_LEN_REQ: u8 = 0x01;
pub const MT_FW_START_REQ: u8 = 0x02;
pub const MT_FW_SCATTER: u8 = 0xEE;
pub const MT_RESTART_DL_REQ: u8 = 0xEF;
pub const EXT_CID: u8 = 0xED;
pub const EXT_CMD_NA: u8 = 0;
pub const EXT_CMD_RADIO_ON_OFF_CTRL: u8 = 0x05;

// Packet type / set-query constants
pub const PKT_ID_CMD: u8 = 0xA0;
pub const CMD_SET: u8 = 1;
pub const CMD_QUERY: u8 = 0;
pub const CMD_NA: u8 = 3;
pub const EXT_CID_OPTION_NEED_ACK: u8 = 1;
pub const EXT_CID_OPTION_NO_NEED_ACK: u8 = 0;

// Priority queue IDs
pub const P1_Q0: u16 = 0x8000;
pub const FW_SCATTER_PQ_ID: u16 = 0xC000;

// Firmware download parameters
pub const FW_CODE_START_ADDRESS1: u32 = 0x100000;
pub const TARGET_ADDR_LEN_NEED_RSP: u32 = 0x8000_0000;
pub const MT_UPLOAD_FW_UNIT: usize = 4096;
/// Size of the full runtime FW_TXD header.
pub const FW_TXD_FULL_SIZE: usize = 32;
/// Largest firmware chunk carried by one scatter frame.
pub const FW_SCATTER_MAX_PAYLOAD: usize = MT_UPLOAD_FW_UNIT - FW_TXD_FULL_SIZE;

pub const EXT_CMD_CHANNEL_SWITCH: u8 = 0x08;
pub const EXT_CMD_SET_TX_POWER_CTRL: u8 = 0x11;
pub const EXT_CMD_EFUSE_BUFFER_MODE: u8 = 0x21;
pub const CMD_CH_PRIVILEGE: u8 = 0x20;

/// Size of the EFUSE_BUFFER_MODE payload: 4-byte header and 240 four-byte
/// buffer entries.
pub const EFUSE_BUFFER_MODE_PAYLOAD_SIZE: usize = 964;

/// The command asks the firmware for an acknowledgement: only extended
/// commands of kind SET or QUERY that expect a response do.
pub open spec fn fw_txd_need_ack(cid: u8, set_query: u8, need_rsp: bool) -> bool {
    cid == EXT_CID && (set_query == CMD_SET || set_query == CMD_QUERY) && need_rsp
}

/// The FW_TXD header of a frame of `total` bytes with a header of
/// `hdr_size` bytes.
pub open spec fn fw_txd_header(
    cid: u8,
    pq_id: u16,
    set_query: u8,
    ext_cid: u8,
    seq: u8,
    need_rsp: bool,
    hdr_size: nat,
    total: nat,
) -> Seq<u8> {
    le16(total as u16) + le16(pq_id) + seq![
        cid,
        PKT_ID_CMD,
        set_query,
        seq,
        0u8,
        ext_cid,
        0u8,
        if fw_txd_need_ack(cid, set_query, need_rsp) {
            EXT_CID_OPTION_NEED_ACK
        } else {
            EXT_CID_OPTION_NO_NEED_ACK
        },
    ] + zeros((hdr_size - FW_TXD_HDR_SIZE) as nat)
}

/// A whole command frame: header followed by the payload.
pub open spec fn fw_txd_frame(
    cid: u8,
    pq_id: u16,
    set_query: u8,
    ext_cid: u8,
    seq: u8,
    need_rsp: bool,
    hdr_size: nat,
    payload: Seq<u8>,
) -> Seq<u8> {
    fw_txd_header(cid, pq_id, set_query, ext_cid, seq, need_rsp, hdr_size, payload.len() + hdr_size)
        + payload
}

/// Builds an FW_TXD command header followed by `payload` at the front of
/// `out_buf`.
///
/// `hdr_size` is 12 during firmware download and 32 once the firmware runs;
/// in the 32-byte form the 20 reserved bytes are zero. The length field holds
/// the whole frame length (header and payload). Fails with -28 (ENOSPC),
/// leaving `out_buf` untouched, when the frame does not fit.
pub fn build_fw_txd_frame(
    cid: u8,
    pq_id: u16,
    set_query: u8,
    ext_cid: u8,
    seq: u8,
    need_rsp: bool,
    hdr_size: usize,
    payload: &[u8],
    out_buf: &mut [u8],
) -> (r: Result<usize, i32>)
    requires
        hdr_size == FW_TXD_HDR_SIZE || hdr_size == FW_TXD_FULL_SIZE,
    ensures
        frame_written(
            old(out_buf)@,
            final(out_buf)@,
            r,
            fw_txd_frame(cid, pq_id, set_query, ext_cid, seq, need_rsp, hdr_size as nat, payload@),
        ),
{
    if out_buf.len() < hdr_size || out_buf.len() - hdr_size < payload.len() {
        return Err(-28);
    }
    let total_len = payload.len() + hdr_size;
    let len = total_len as u16;
    let need_ack = cid == EXT_CID && (set_query == CMD_SET || set_query == CMD_QUERY) && need_rsp;
    let option = if need_ack {
        EXT_CID_OPTION_NEED_ACK
    } else {
        EXT_CID_OPTION_NO_NEED_ACK
    };
    let hdr: [u8; 12] = [
        (len & 0xff) as u8,
        (len >> 8) as u8,
        (pq_id & 0xff) as u8,
        (pq_id >> 8) as u8,
        cid,
        PKT_ID_CMD,
        set_query,
        seq,
        0x00,
        ext_cid,
        0x00,
        option,
    ];
    let ghost orig = out_buf@;
    let ghost fields = le16(total_len as u16) + le16(pq_id) + seq![
        cid,
        PKT_ID_CMD,
        set_query,
        seq,
        0u8,
        ext_cid,
        0u8,
        option,
    ];
    assert(hdr@ =~= fields);
    assert(Seq::<u8>::empty() + orig.skip(0) =~= orig);
    append_at(out_buf, 0, &hdr, Ghost(Seq::empty()), Ghost(orig));
    assert(Seq::<u8>::empty() + hdr@ =~= fields);
    if hdr_size > FW_TXD_HDR_SIZE {
        let reserved = [0u8; 20];
        assert(reserved@ =~= zeros(20));
        append_at(out_buf, FW_TXD_HDR_SIZE, &reserved, Ghost(fields), Ghost(orig));
        append_at(out_buf, hdr_size, payload, Ghost(fields + zeros(20)), Ghost(orig));
    } else {
        assert(fields + zeros(0) =~= fields);
        append_at(out_buf, hdr_size, payload, Ghost(fields), Ghost(orig));
    }
    Ok(total_len)
}

/// Layout of every command frame: its length field holds the frame length
/// (header and payload), the command ID, packet type and sequence number sit
/// at bytes 4, 5 and 7, and the payload follows the header unchanged.
pub proof fn lemma_fw_txd_frame_layout(
    cid: u8,
    pq_id: u16,
    set_query: u8,
    ext_cid: u8,
    seq: u8,
    need_rsp: bool,
    hdr_size: nat,
    payload: Seq<u8>,
)
    requires
        hdr_size == FW_TXD_HDR_SIZE || hdr_size == FW_TXD_FULL_SIZE,
        payload.len() + hdr_size <= 0xffff,
    ensures
        ({
            let f = fw_txd_frame(cid, pq_id, set_query, ext_cid, seq, need_rsp, hdr_size, payload);
            &&& f.len() == payload.len() + hdr_size
            &&& f[0] as int + 256 * (f[1] as int) == f.len()
            &&& f[2] as int + 256 * (f[3] as int) == pq_id
            &&& f[4] == cid && f[5] == PKT_ID_CMD && f[6] == set_query && f[7] == seq
            &&& f[9] == ext_cid
            &&& f.skip(hdr_size as int) == payload
        }),
{
    let f = fw_txd_frame(cid, pq_id, set_query, ext_cid, seq, need_rsp, hdr_size, payload);
    let total = (payload.len() + hdr_size) as u16;
    assert(total == payload.len() + hdr_size);
    assert(((total & 0xff) as u8) as int + 256 * (((total >> 8) as u8) as int) == total) by (bit_vector);
    assert(((pq_id & 0xff) as u8) as int + 256 * (((pq_id >> 8) as u8) as int) == pq_id) by (bit_vector);
    assert(f.skip(hdr_size as int) =~= payload);
}

/// Payload of the target address/length request: address, download length
/// and data mode, each little-endian.
pub open spec fn addr_len_req_payload(address: u32, dl_len: u32) -> Seq<u8> {
    le32(address) + le32(dl_len) + le32(TARGET_ADDR_LEN_NEED_RSP)
}

/// Builds the target address/length request (cid 0x01, 12-byte header,
/// response expected). `seq` is the sequence number of this need-wait command.
pub fn build_addr_len_req(address: u32, dl_len: u32, seq: u8, out_buf: &mut [u8]) -> (r: Result<
    usize,
    i32,
>)
    ensures
        frame_written(
            old(out_buf)@,
            final(out_buf)@,
            r,
            fw_txd_frame(
                MT_TARGET_ADDRESS_LEN_REQ,
                P1_Q0,
                CMD_NA,
                EXT_CMD_NA,
                seq,
                true,
                FW_TXD_HDR_SIZE as nat,
                addr_len_req_payload(address, dl_len),
            ),
        ),
{
    let a = le32_bytes(address);
    let l = le32_bytes(dl_len);
    let m = le32_bytes(TARGET_ADDR_LEN_NEED_RSP);
    let payload: [u8; 12] = [a[0], a[1], a[2], a[3], l[0], l[1], l[2], l[3], m[0], m[1], m[2], m[3]];
    assert(payload@ =~= addr_len_req_payload(address, dl_len));
    build_fw_txd_frame(
        MT_TARGET_ADDRESS_LEN_REQ,
        P1_Q0,
        CMD_NA,
        EXT_CMD_NA,
        seq,
        true,
        FW_TXD_HDR_SIZE,
        &payload,
        out_buf,
    )
}

/// Payload of the firmware start request: override flag and entry address.
pub open spec fn fw_start_req_payload(override_: u32, address: u32) -> Seq<u8> {
    le32(override_) + le32(address)
}

/// Builds the firmware start request (cid 0x02, 12-byte header, response
/// expected).
pub fn build_fw_start_req(override_: u32, address: u32, seq: u8, out_buf: &mut [u8]) -> (r: Result<
    usize,
    i32,
>)
    ensures
        frame_written(
            old(out_buf)@,
            final(out_buf)@,
            r,
            fw_txd_frame(
                MT_FW_START_REQ,
                P1_Q0,
                CMD_NA,
                EXT_CMD_NA,
                seq,
                true,
                FW_TXD_HDR_SIZE as nat,
                fw_start_req_payload(override_, address),
            ),
        ),
{
    let o = le32_bytes(override_);
    let a = le32_bytes(address);
    let payload: [u8; 8] = [o[0], o[1], o[2], o[3], a[0], a[1], a[2], a[3]];
    assert(payload@ =~= fw_start_req_payload(override_, address));
    build_fw_txd_frame(
        MT_FW_START_REQ,
        P1_Q0,
        CMD_NA,
        EXT_CMD_NA,
        seq,
        true,
        FW_TXD_HDR_SIZE,
        &payload,
        out_buf,
    )
}

/// Builds the restart download request (cid 0xEF) sent while the RAM firmware
/// still runs: 32-byte runtime header, no payload, response expected.
pub fn build_restart_dl_req(seq: u8, out_buf: &mut [u8]) -> (r: Result<usize, i32>)
    ensures
        frame_written(
            old(out_buf)@,
            final(out_buf)@,
            r,
            fw_txd_frame(
                MT_RESTART_DL_REQ,
                P1_Q0,
                CMD_NA,
                EXT_CMD_NA,
                seq,
                true,
                FW_TXD_FULL_SIZE as nat,
                Seq::empty(),
            ),
        ),
{
    let empty: [u8; 0] = [];
    assert(empty@ =~= Seq::<u8>::empty());
    build_fw_txd_frame(
        MT_RESTART_DL_REQ,
        P1_Q0,
        CMD_NA,
        EXT_CMD_NA,
        seq,
        true,
        FW_TXD_FULL_SIZE,
        &empty,
        out_buf,
    )
}

/// Payload of the channel switch command (36 bytes): control and central
/// channel, bandwidth, TX and RX stream counts, 7 zero bytes, 21 TX power SKU
/// bytes of 0xFF and 3 zero bytes.
pub open spec fn channel_switch_payload(
    ctrl_ch: u8,
    central_ch: u8,
    bw: u8,
    tx_streams: u8,
    rx_streams: u8,
) -> Seq<u8> {
    seq![ctrl_ch, central_ch, bw, tx_streams, rx_streams] + zeros(7) + ones(21) + zeros(3)
}

/// Builds the channel switch command (cid 0xED, extended command 0x08, SET,
/// 32-byte header, response expected).
pub fn build_channel_switch_cmd(
    ctrl_ch: u8,
    central_ch: u8,
    bw: u8,
    tx_streams: u8,
    rx_streams: u8,
    seq: u8,
    out_buf: &mut [u8],
) -> (r: Result<usize, i32>)
    ensures
        frame_written(
            old(out_buf)@,
            final(out_buf)@,
            r,
            fw_txd_frame(
                EXT_CID,
                P1_Q0,
                CMD_SET,
                EXT_CMD_CHANNEL_SWITCH,
                seq,
                true,
                FW_TXD_FULL_SIZE as nat,
                channel_switch_payload(ctrl_ch, central_ch, bw, tx_streams, rx_streams),
            ),
        ),
{
    let mut payload = [0u8; 36];
    payload[0] = ctrl_ch;
    payload[1] = central_ch;
    payload[2] = bw;
    payload[3] = tx_streams;
    payload[4] = rx_streams;
    let mut i: usize = 12;
    while i < 33
        invariant
            12 <= i <= 33,
            forall|k: int| 0 <= k < 5 ==> payload@[k] == seq![ctrl_ch, central_ch, bw, tx_streams, rx_streams][k],
            forall|k: int| 5 <= k < 12 ==> payload@[k] == 0,
            forall|k: int| 12 <= k < i ==> payload@[k] == 0xFF,
            forall|k: int| 33 <= k < 36 ==> payload@[k] == 0,
        decreases 33 - i,
    {
        payload[i] = 0xFF;
        i = i + 1;
    }
    assert(payload@ =~= channel_switch_payload(ctrl_ch, central_ch, bw, tx_streams, rx_streams));
    build_fw_txd_frame(
        EXT_CID,
        P1_Q0,
        CMD_SET,
        EXT_CMD_CHANNEL_SWITCH,
        seq,
        true,
        FW_TXD_FULL_SIZE,
        &payload,
        out_buf,
    )
}

/// EEPROM word read as the firmware commands expect it: little-endian, with
/// 0xFF standing for each byte beyond the image.
pub open spec fn eeprom_read16(e: Seq<u8>, addr: int) -> u16 {
    let lo: u16 = if 0 <= addr < e.len() { e[addr] as u16 } else { 0xff };
    let hi: u16 = if 0 <= addr + 1 < e.len() { e[addr + 1] as u16 } else { 0xff };
    lo | (hi << 8)
}

/// Low byte of a word.
pub open spec fn lo8(v: u16) -> u8 {
    v as u8
}

/// High byte of a word.
pub open spec fn hi8(v: u16) -> u8 {
    (v >> 8) as u8
}

/// Bytes of consecutive EEPROM words from `base` on, low byte first.
pub open spec fn eeprom_word_bytes(e: Seq<u8>, base: int, n: nat) -> Seq<u8> {
    Seq::new(
        n,
        |k: int|
            if k % 2 == 0 {
                lo8(eeprom_read16(e, base + k))
            } else {
                hi8(eeprom_read16(e, base + k - 1))
            },
    )
}

// EEPROM byte offsets of the TX power control fields.
pub const E2P_NIC_CONFIGURE_1: usize = 0x36;
pub const E2P_G_BAND_20_40_BW_PWR_DELTA: usize = 0x50;
pub const E2P_TX0_G_BAND_TARGET_PWR: usize = 0x58;
pub const E2P_TX0_G_BAND_CHL_PWR_DELTA_MID: usize = 0x5A;
pub const E2P_TX1_G_BAND_TARGET_PWR: usize = 0x5E;
pub const E2P_TX1_G_BAND_CHL_PWR_DELTA_MID: usize = 0x60;
pub const E2P_TX_PWR_CCK_1_2M: usize = 0xA0;
pub const E2P_STEP_NUM_NEG_7: usize = 0xC6;

/// Payload of the TX power control command (44 bytes): center channel, TSSI
/// and temperature compensation enables, the two target powers, 14 rate power
/// deltas, the bandwidth delta, 6 channel power deltas, 17 temperature
/// compensation steps and a reserved zero byte.
pub open spec fn tx_power_ctrl_payload(e: Seq<u8>, central_ch: u8) -> Seq<u8> {
    let nic = eeprom_read16(e, E2P_NIC_CONFIGURE_1 as int);
    let tx0 = eeprom_read16(e, E2P_TX0_G_BAND_TARGET_PWR as int);
    let tx1 = eeprom_read16(e, E2P_TX1_G_BAND_TARGET_PWR as int);
    let bw = eeprom_read16(e, E2P_G_BAND_20_40_BW_PWR_DELTA as int);
    let d0 = eeprom_read16(e, E2P_TX0_G_BAND_CHL_PWR_DELTA_MID as int);
    let d1 = eeprom_read16(e, E2P_TX1_G_BAND_CHL_PWR_DELTA_MID as int);
    seq![central_ch, hi8(nic), lo8(nic), lo8(tx0), lo8(tx1)]
        + eeprom_word_bytes(e, E2P_TX_PWR_CCK_1_2M as int, 14)
        + seq![lo8(bw), hi8(tx0), lo8(d0), hi8(d0), hi8(tx1), lo8(d1), hi8(d1)]
        + eeprom_word_bytes(e, E2P_STEP_NUM_NEG_7 as int, 17)
        + seq![0u8]
}

/// The EEPROM byte at `addr`, 0xFF beyond the image.
pub open spec fn eeprom_byte(e: Seq<u8>, addr: int) -> u8 {
    if 0 <= addr < e.len() {
        e[addr]
    } else {
        0xff
    }
}

/// An EEPROM word splits back into the bytes at `addr` (low) and `addr + 1`
/// (high).
pub proof fn lemma_eeprom_read16_bytes(e: Seq<u8>, addr: int)
    ensures
        lo8(eeprom_read16(e, addr)) == eeprom_byte(e, addr),
        hi8(eeprom_read16(e, addr)) == eeprom_byte(e, addr + 1),
{
    let lo = eeprom_byte(e, addr);
    let hi = eeprom_byte(e, addr + 1);
    assert(((lo as u16) | ((hi as u16) << 8)) as u8 == lo && ((((lo as u16) | ((hi as u16) << 8))
        >> 8) as u8) == hi) by (bit_vector);
}

/// Consecutive EEPROM words from `base` on are the EEPROM bytes from `base` on,
/// in order.
pub proof fn lemma_eeprom_word_bytes_in_order(e: Seq<u8>, base: int, n: nat)
    ensures
        eeprom_word_bytes(e, base, n).len() == n,
        forall|k: int| 0 <= k < n ==> #[trigger] eeprom_word_bytes(e, base, n)[k] == eeprom_byte(
            e,
            base + k,
        ),
{
    assert forall|k: int| 0 <= k < n implies #[trigger] eeprom_word_bytes(e, base, n)[k]
        == eeprom_byte(e, base + k) by {
        lemma_eeprom_read16_bytes(e, base + k);
        lemma_eeprom_read16_bytes(e, base + k - 1);
    }
}

/// Where each payload byte of the TX power control command comes from: the
/// center channel; the NIC configuration bytes 0x37 and 0x36; the TX0 and TX1
/// target powers 0x58 and 0x5E; the 14 rate power deltas 0xA0..0xAE in order;
/// the bytes 0x50, 0x59, 0x5A, 0x5B, 0x5F, 0x60, 0x61; the 17 temperature
/// compensation steps 0xC6..0xD7 in order; and a zero byte. A byte beyond the
/// EEPROM image reads as 0xFF.
pub proof fn lemma_tx_power_ctrl_payload_bytes(e: Seq<u8>, central_ch: u8)
    ensures
        ({
            let p = tx_power_ctrl_payload(e, central_ch);
            &&& p.len() == 44
            &&& p[0] == central_ch
            &&& p[1] == eeprom_byte(e, 0x37) && p[2] == eeprom_byte(e, 0x36)
            &&& p[3] == eeprom_byte(e, 0x58) && p[4] == eeprom_byte(e, 0x5E)
            &&& forall|k: int| 5 <= k < 19 ==> #[trigger] p[k] == eeprom_byte(e, 0xA0 + k - 5)
            &&& p[19] == eeprom_byte(e, 0x50) && p[20] == eeprom_byte(e, 0x59)
            &&& p[21] == eeprom_byte(e, 0x5A) && p[22] == eeprom_byte(e, 0x5B)
            &&& p[23] == eeprom_byte(e, 0x5F) && p[24] == eeprom_byte(e, 0x60)
            &&& p[25] == eeprom_byte(e, 0x61)
            &&& forall|k: int| 26 <= k < 43 ==> #[trigger] p[k] == eeprom_byte(e, 0xC6 + k - 26)
            &&& p[43] == 0
        }),
{
    let p = tx_power_ctrl_payload(e, central_ch);
    lemma_eeprom_word_bytes_in_order(e, 0xA0, 14);
    lemma_eeprom_word_bytes_in_order(e, 0xC6, 17);
    lemma_eeprom_read16_bytes(e, 0x36);
    lemma_eeprom_read16_bytes(e, 0x58);
    lemma_eeprom_read16_bytes(e, 0x5E);
    lemma_eeprom_read16_bytes(e, 0x50);
    lemma_eeprom_read16_bytes(e, 0x5A);
    lemma_eeprom_read16_bytes(e, 0x60);
    let nic = eeprom_read16(e, E2P_NIC_CONFIGURE_1 as int);
    let tx0 = eeprom_read16(e, E2P_TX0_G_BAND_TARGET_PWR as int);
    let tx1 = eeprom_read16(e, E2P_TX1_G_BAND_TARGET_PWR as int);
    let bw = eeprom_read16(e, E2P_G_BAND_20_40_BW_PWR_DELTA as int);
    let d0 = eeprom_read16(e, E2P_TX0_G_BAND_CHL_PWR_DELTA_MID as int);
    let d1 = eeprom_read16(e, E2P_TX1_G_BAND_CHL_PWR_DELTA_MID as int);
    let cck = eeprom_word_bytes(e, E2P_TX_PWR_CCK_1_2M as int, 14);
    let temp = eeprom_word_bytes(e, E2P_STEP_NUM_NEG_7 as int, 17);
    let mid = seq![lo8(bw), hi8(tx0), lo8(d0), hi8(d0), hi8(tx1), lo8(d1), hi8(d1)];
    assert(p =~= seq![central_ch, hi8(nic), lo8(nic), lo8(tx0), lo8(tx1)] + cck + mid + temp
        + seq![0u8]);
    assert forall|k: int| 5 <= k < 19 implies #[trigger] p[k] == eeprom_byte(e, 0xA0 + k - 5) by {
        assert(p[k] == cck[k - 5]);
    }
    assert forall|k: int| 26 <= k < 43 implies #[trigger] p[k] == eeprom_byte(e, 0xC6 + k - 26) by {
        assert(p[k] == temp[k - 26]);
    }
}

/// Reads an EEPROM word, 0xFF standing for each byte beyond the image.
fn read16(eeprom: &[u8], addr: usize) -> (r: u16)
    requires
        addr < 0x1000,
    ensures
        r == eeprom_read16(eeprom@, addr as int),
{
    let lo: u16 = if addr < eeprom.len() {
        eeprom[addr] as u16
    } else {
        0xff
    };
    let hi: u16 = if addr + 1 < eeprom.len() {
        eeprom[addr + 1] as u16
    } else {
        0xff
    };
    lo | (hi << 8)
}

/// Builds the TX power control command (cid 0xED, extended command 0x11, SET,
/// 32-byte header, response expected) from the EEPROM image.
pub fn build_tx_power_ctrl_cmd(eeprom: &[u8], central_ch: u8, seq: u8, out_buf: &mut [u8]) -> (r:
    Result<usize, i32>)
    ensures
        frame_written(
            old(out_buf)@,
            final(out_buf)@,
            r,
            fw_txd_frame(
                EXT_CID,
                P1_Q0,
                CMD_SET,
                EXT_CMD_SET_TX_POWER_CTRL,
                seq,
                true,
                FW_TXD_FULL_SIZE as nat,
                tx_power_ctrl_payload(eeprom@, central_ch),
            ),
        ),
        // the temperature compensation steps are EEPROM bytes 0xC6..0xD7 in
        // order, at payload bytes 26..43 behind the 32-byte header
        r is Ok ==> forall|k: int| 58 <= k < 75 ==> #[trigger] final(out_buf)@[k] == eeprom_byte(
            eeprom@,
            0xC6 + k - 58,
        ),
{
    let ghost e = eeprom@;
    let mut payload = [0u8; 44];

    payload[0] = central_ch;
    let nic_conf1 = read16(eeprom, E2P_NIC_CONFIGURE_1);
    payload[1] = (nic_conf1 >> 8) as u8;
    payload[2] = nic_conf1 as u8;

    let tx0 = read16(eeprom, E2P_TX0_G_BAND_TARGET_PWR);
    let tx1 = read16(eeprom, E2P_TX1_G_BAND_TARGET_PWR);
    payload[3] = tx0 as u8;
    payload[4] = tx1 as u8;

    let mut i: usize = 0;
    while i < 7
        invariant
            i <= 7,
            payload@.len() == 44,
            forall|k: int| 0 <= k < 2 * i ==> payload@[5 + k] == eeprom_word_bytes(e, E2P_TX_PWR_CCK_1_2M as int, 14)[k],
            payload@.subrange(0, 5) == seq![central_ch, hi8(eeprom_read16(e, E2P_NIC_CONFIGURE_1 as int)), lo8(eeprom_read16(e, E2P_NIC_CONFIGURE_1 as int)), lo8(eeprom_read16(e, E2P_TX0_G_BAND_TARGET_PWR as int)), lo8(eeprom_read16(e, E2P_TX1_G_BAND_TARGET_PWR as int))],
            forall|k: int| 5 + 2 * i <= k < 44 ==> payload@[k] == 0,
            e == eeprom@,
            tx0 == eeprom_read16(e, E2P_TX0_G_BAND_TARGET_PWR as int),
            tx1 == eeprom_read16(e, E2P_TX1_G_BAND_TARGET_PWR as int),
        decreases 7 - i,
    {
        let v = read16(eeprom, E2P_TX_PWR_CCK_1_2M + i * 2);
        payload[5 + i * 2] = v as u8;
        payload[6 + i * 2] = (v >> 8) as u8;
        i = i + 1;
    }

    let bw = read16(eeprom, E2P_G_BAND_20_40_BW_PWR_DELTA);
    let d0 = read16(eeprom, E2P_TX0_G_BAND_CHL_PWR_DELTA_MID);
    let d1 = read16(eeprom, E2P_TX1_G_BAND_CHL_PWR_DELTA_MID);
    payload[19] = bw as u8;
    payload[20] = (tx0 >> 8) as u8;
    payload[21] = d0 as u8;
    payload[22] = (d0 >> 8) as u8;
    payload[23] = (tx1 >> 8) as u8;
    payload[24] = d1 as u8;
    payload[25] = (d1 >> 8) as u8;

    let ghost spec = tx_power_ctrl_payload(e, central_ch);
    assert forall|k: int| 0 <= k < 26 implies payload@[k] == spec[k] by {
        if 5 <= k < 19 {
            assert(payload@[5 + (k - 5)] == eeprom_word_bytes(e, E2P_TX_PWR_CCK_1_2M as int, 14)[k - 5]);
        }
    }
    let mut j: usize = 26;
    let mut i: usize = 0;
    while i < 9
        invariant
            i <= 9,
            j == if i <= 8 { 26 + 2 * i } else { 43 },
            payload@.len() == 44,
            e == eeprom@,
            spec == tx_power_ctrl_payload(e, central_ch),
            forall|k: int| 0 <= k < 26 ==> payload@[k] == spec[k],
            forall|k: int| 26 <= k < j ==> payload@[k] == spec[k],
            forall|k: int| j <= k < 44 ==> payload@[k] == 0,
        decreases 9 - i,
    {
        let v = read16(eeprom, E2P_STEP_NUM_NEG_7 + i * 2);
        assert(spec[j as int] == eeprom_word_bytes(e, E2P_STEP_NUM_NEG_7 as int, 17)[2 * i]);
        payload[j] = v as u8;
        j = j + 1;
        if i != 8 {
            assert(spec[j as int] == eeprom_word_bytes(e, E2P_STEP_NUM_NEG_7 as int, 17)[2 * i + 1]);
            payload[j] = (v >> 8) as u8;
            j = j + 1;
        }
        i = i + 1;
    }

    assert(payload@ =~= tx_power_ctrl_payload(eeprom@, central_ch));
    let r = build_fw_txd_frame(
        EXT_CID,
        P1_Q0,
        CMD_SET,
        EXT_CMD_SET_TX_POWER_CTRL,
        seq,
        true,
        FW_TXD_FULL_SIZE,
        &payload,
        out_buf,
    );
    proof {
        let pl = tx_power_ctrl_payload(e, central_ch);
        lemma_tx_power_ctrl_payload_bytes(e, central_ch);
        lemma_fw_txd_frame_layout(
            EXT_CID,
            P1_Q0,
            CMD_SET,
            EXT_CMD_SET_TX_POWER_CTRL,
            seq,
            true,
            FW_TXD_FULL_SIZE as nat,
            pl,
        );
        let f = fw_txd_frame(
            EXT_CID,
            P1_Q0,
            CMD_SET,
            EXT_CMD_SET_TX_POWER_CTRL,
            seq,
            true,
            FW_TXD_FULL_SIZE as nat,
            pl,
        );
        if r is Ok {
            assert forall|k: int| 58 <= k < 75 implies #[trigger] out_buf@[k] == eeprom_byte(
                e,
                0xC6 + k - 58,
            ) by {
                assert(out_buf@[k] == f[k]);
                assert(f.skip(32)[k - 32] == pl[k - 32]);
            }
        }
    }
    r
}

/// Builds the EFUSE_BUFFER_MODE command (cid 0xED, extended command 0x21,
/// SET, 32-byte header, response expected).
///
/// The chip takes its calibration from its own eFuse: the payload selects the
/// eFuse source with no buffer entries, so all 964 payload bytes are zero and
/// `eeprom` is not read.
pub fn build_efuse_buffer_mode_cmd(eeprom: &[u8], seq: u8, out_buf: &mut [u8]) -> (r: Result<
    usize,
    i32,
>)
    ensures
        frame_written(
            old(out_buf)@,
            final(out_buf)@,
            r,
            fw_txd_frame(
                EXT_CID,
                P1_Q0,
                CMD_SET,
                EXT_CMD_EFUSE_BUFFER_MODE,
                seq,
                true,
                FW_TXD_FULL_SIZE as nat,
                zeros(EFUSE_BUFFER_MODE_PAYLOAD_SIZE as nat),
            ),
        ),
{
    let mut payload = [0u8; 964];
    payload[0] = 0;  // source mode: eFuse
    payload[1] = 0;  // no buffer entries
    assert(payload@ =~= zeros(EFUSE_BUFFER_MODE_PAYLOAD_SIZE as nat));
    build_fw_txd_frame(
        EXT_CID,
        P1_Q0,
        CMD_SET,
        EXT_CMD_EFUSE_BUFFER_MODE,
        seq,
        true,
        FW_TXD_FULL_SIZE,
        &payload,
        out_buf,
    )
}

/// Payload of the channel privilege request (16 bytes): a join request for
/// `channel` as primary channel on the 2.4 GHz band; all other bytes zero.
pub open spec fn ch_privilege_payload(channel: u8) -> Seq<u8> {
    zeros(3) + seq![channel] + zeros(12)
}

/// Builds the channel privilege command (cid 0x20, SET, 32-byte header, no
/// response expected).
pub fn build_ch_privilege_cmd(channel: u8, seq: u8, out_buf: &mut [u8]) -> (r: Result<usize, i32>)
    ensures
        frame_written(
            old(out_buf)@,
            final(out_buf)@,
            r,
            fw_txd_frame(
                CMD_CH_PRIVILEGE,
                P1_Q0,
                CMD_SET,
                EXT_CMD_NA,
                seq,
                false,
                FW_TXD_FULL_SIZE as nat,
                ch_privilege_payload(channel),
            ),
        ),
{
    let mut payload = [0u8; 16];
    payload[2] = 0;  // action: request
    payload[3] = channel;  // primary channel
    payload[4] = 0;  // RF secondary channel offset: none
    payload[5] = 0;  // RF band: 2.4 GHz
    payload[6] = 0;  // RF channel width: 20/40 MHz
    payload[9] = 0;  // request type: join
    assert(payload@ =~= ch_privilege_payload(channel));
    build_fw_txd_frame(
        CMD_CH_PRIVILEGE,
        P1_Q0,
        CMD_SET,
        EXT_CMD_NA,
        seq,
        false,
        FW_TXD_FULL_SIZE,
        &payload,
        out_buf,
    )
}

/// Builds one firmware scatter frame (cid 0xEE, queue 0xC000, 12-byte header,
/// sequence 0, no response) carrying `chunk`.
///
/// A chunk longer than `FW_SCATTER_MAX_PAYLOAD` (4064) is refused with -22
/// (EINVAL), `out_buf` untouched; otherwise the outcome is that of writing the
/// frame. A built frame with its USB end padding fits in one upload unit.
pub fn build_fw_scatter_frame(chunk: &[u8], out_buf: &mut [u8]) -> (r: Result<usize, i32>)
    ensures
        chunk@.len() > FW_SCATTER_MAX_PAYLOAD ==> r == Err::<usize, i32>(-22i32) && final(out_buf)@
            == old(out_buf)@,
        chunk@.len() <= FW_SCATTER_MAX_PAYLOAD ==> frame_written(
            old(out_buf)@,
            final(out_buf)@,
            r,
            fw_txd_frame(
                MT_FW_SCATTER,
                FW_SCATTER_PQ_ID,
                CMD_NA,
                EXT_CMD_NA,
                0,
                false,
                FW_TXD_HDR_SIZE as nat,
                chunk@,
            ),
        ),
        r matches Ok(n) ==> n + USB_END_PADDING <= MT_UPLOAD_FW_UNIT,
{
    if chunk.len() > FW_SCATTER_MAX_PAYLOAD {
        return Err(-22);
    }
    build_fw_txd_frame(
        MT_FW_SCATTER,
        FW_SCATTER_PQ_ID,
        CMD_NA,
        EXT_CMD_NA,
        0,
        false,
        FW_TXD_HDR_SIZE,
        chunk,
        out_buf,
    )
}

/// The download length of a firmware image: the little-endian word held by
/// its last 4 bytes, plus 4 for the CRC.
pub open spec fn spec_fw_dl_len(fw: Seq<u8>) -> int {
    from_le32(fw.skip(fw.len() - 4)) + 4
}

/// Computes the firmware download length: the little-endian word in the last
/// 4 bytes of the image plus 4 (CRC). `None` when the image is shorter than
/// 4 bytes.
pub fn fw_dl_len(fw_buf: &[u8]) -> (r: Option<u32>)
    requires
        fw_buf@.len() >= 4 ==> spec_fw_dl_len(fw_buf@) <= u32::MAX,
    ensures
        match r {
            Some(n) => fw_buf@.len() >= 4 && n == spec_fw_dl_len(fw_buf@),
            None => fw_buf@.len() < 4,
        },
{
    if fw_buf.len() < 4 {
        return None;
    }
    let t = fw_buf.len() - 4;
    let n = (fw_buf[t] as u32) | ((fw_buf[t + 1] as u32) << 8) | ((fw_buf[t + 2] as u32) << 16)
        | ((fw_buf[t + 3] as u32) << 24);
    assert(n == from_le32(fw_buf@.skip(fw_buf@.len() - 4)));
    Some(n + 4)
}

/// An image is accepted when it is at least 1024 bytes long and starts with
/// the Andes N9 signature 0x46 0x00 0x01 0x00.
pub open spec fn firmware_is_valid(fw: Seq<u8>) -> bool {
    &&& fw.len() >= 1024
    &&& fw[0] == 0x46 && fw[1] == 0x00 && fw[2] == 0x01 && fw[3] == 0x00
}

/// Checks a firmware image header; -22 (EINVAL) when it is not accepted.
pub fn verify_firmware(fw_buf: &[u8]) -> (r: Result<(), i32>)
    ensures
        match r {
            Ok(()) => firmware_is_valid(fw_buf@),
            Err(e) => !firmware_is_valid(fw_buf@) && e == -22,
        },
{
    if fw_buf.len() < 1024 {
        return Err(-22);
    }
    if fw_buf[0] != 0x46 || fw_buf[1] != 0x00 || fw_buf[2] != 0x01 || fw_buf[3] != 0x00 {
        return Err(-22);
    }
    Ok(())
}

/// Payload of the radio on/off command: 1 for on, 2 for off, then 3 zero bytes.
pub open spec fn radio_on_off_payload(on: bool) -> Seq<u8> {
    seq![if on { 1u8 } else { 2u8 }] + zeros(3)
}

/// Builds the radio on/off command (cid 0xED, extended command 0x05, SET,
/// 32-byte header, response expected).
pub fn build_radio_on_off_cmd(on: bool, seq: u8, out_buf: &mut [u8]) -> (r: Result<usize, i32>)
    ensures
        frame_written(
            old(out_buf)@,
            final(out_buf)@,
            r,
            fw_txd_frame(
                EXT_CID,
                P1_Q0,
                CMD_SET,
                EXT_CMD_RADIO_ON_OFF_CTRL,
                seq,
                true,
                FW_TXD_FULL_SIZE as nat,
                radio_on_off_payload(on),
            ),
        ),
{
    let mut payload = [0u8; 4];
    payload[0] = if on {
        1
    } else {
        2
    };
    assert(payload@ =~= radio_on_off_payload(on));
    build_fw_txd_frame(
        EXT_CID,
        P1_Q0,
        CMD_SET,
        EXT_CMD_RADIO_ON_OFF_CTRL,
        seq,
        true,
        FW_TXD_FULL_SIZE,
        &payload,
        out_buf,
    )
}

/// The firmware download commands carry their arguments as little-endian
/// words in argument order: the address/length request reads back as the
/// address, the download length and the need-response mode 0x8000_0000; the
/// start request as the override flag and the entry address.
pub proof fn lemma_fw_download_payload_words(address: u32, dl_len: u32, override_: u32)
    ensures
        ({
            let p = addr_len_req_payload(address, dl_len);
            &&& p.len() == 12
            &&& from_le32(p.subrange(0, 4)) == address
            &&& from_le32(p.subrange(4, 8)) == dl_len
            &&& from_le32(p.subrange(8, 12)) == 0x8000_0000
        }),
        ({
            let q = fw_start_req_payload(override_, address);
            &&& q.len() == 8
            &&& from_le32(q.subrange(0, 4)) == override_
            &&& from_le32(q.subrange(4, 8)) == address
        }),
{
    lemma_le32_roundtrip(address);
    lemma_le32_roundtrip(dl_len);
    lemma_le32_roundtrip(TARGET_ADDR_LEN_NEED_RSP);
    lemma_le32_roundtrip(override_);
    let p = addr_len_req_payload(address, dl_len);
    assert(p.subrange(0, 4) =~= le32(address));
    assert(p.subrange(4, 8) =~= le32(dl_len));
    assert(p.subrange(8, 12) =~= le32(TARGET_ADDR_LEN_NEED_RSP));
    let q = fw_start_req_payload(override_, address);
    assert(q.subrange(0, 4) =~= le32(override_));
    assert(q.subrange(4, 8) =~= le32(address));
}

/// An image that ends with the little-endian word `n` needs `n + 4` bytes of
/// download (the word counts the image without its 4-byte CRC), whatever
/// precedes that word.
pub proof fn lemma_fw_dl_len_of_trailer(body: Seq<u8>, n: u32)
    ensures
        spec_fw_dl_len(body + le32(n)) == n + 4,
{
    lemma_le32_roundtrip(n);
    assert((body + le32(n)).skip(body.len() as int) =~= le32(n));
}

/// The channel commands put their arguments where the firmware reads them: the
/// switch command has the control channel, central channel, bandwidth and TX
/// and RX stream counts in bytes 0..5, and the 21 TX power SKU bytes 12..33
/// at 0xFF; the privilege request has the channel in byte 3 and no other
/// non-zero byte; the radio command has 1 for on and 2 for off in byte 0.
pub proof fn lemma_channel_and_radio_payloads(
    ctrl_ch: u8,
    central_ch: u8,
    bw: u8,
    tx_streams: u8,
    rx_streams: u8,
    channel: u8,
    on: bool,
)
    ensures
        ({
            let p = channel_switch_payload(ctrl_ch, central_ch, bw, tx_streams, rx_streams);
            &&& p.len() == 36
            &&& p[0] == ctrl_ch && p[1] == central_ch && p[2] == bw
            &&& p[3] == tx_streams && p[4] == rx_streams
            &&& forall|i: int| 5 <= i < 12 ==> #[trigger] p[i] == 0
            &&& forall|i: int| 12 <= i < 33 ==> #[trigger] p[i] == 0xff
            &&& forall|i: int| 33 <= i < 36 ==> #[trigger] p[i] == 0
        }),
        ({
            let q = ch_privilege_payload(channel);
            &&& q.len() == 16
            &&& q[3] == channel
            &&& forall|i: int| 0 <= i < 16 && i != 3 ==> #[trigger] q[i] == 0
        }),
        radio_on_off_payload(on).len() == 4,
        radio_on_off_payload(on)[0] == (if on { 1u8 } else { 2u8 }),
{
}

} // verus!
