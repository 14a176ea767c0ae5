//! MAC initialization, channel and own-address register sequences.
//!
//! Nothing here touches the hardware: each builder writes an ordered list of
//! register writes that the caller performs.

use crate::ffi::RegWriteOp;
use crate::regmap::{hif_addr_translated, mac_cr_lookup, spec_physical_addr_map};
use crate::util::{frame_written, write_at};
use vstd::prelude::*;

verus! {

pub const TMAC_TCR: u32 = 0x0002_1600;
pub const TMAC_CDTR: u32 = 0x0002_1608;
pub const TMAC_RRCR: u32 = 0x0002_160C;
pub const TMAC_TRCR: u32 = 0x0002_1614;
pub const ARB_SCR: u32 = 0x0002_1480;
pub const ARB_RQCR: u32 = 0x0002_1470;
pub const ARB_TQCR0: u32 = 0x0002_1500;
pub const RMAC_RFCR: u32 = 0x0002_1800;
pub const RMAC_OMA0R0: u32 = 0x0002_1824;
pub const RMAC_OMA0R1: u32 = 0x0002_1828;
pub const RMAC_RMACDR: u32 = 0x0002_1878;
pub const RMAC_RMCR: u32 = 0x0002_1880;
pub const RMAC_MAXMINLEN: u32 = 0x0002_1898;
pub const RMAC_RFCR1: u32 = 0x0002_18A4;
pub const AGG_AWSCR: u32 = 0x0002_1248;
pub const AGG_AWSCR1: u32 = 0x0002_124C;
pub const AGG_AALCR: u32 = 0x0002_1250;
pub const AGG_AALCR1: u32 = 0x0002_1254;
pub const DMA_DCR1: u32 = 0x0002_1C04;
pub const DMA_RCFR0: u32 = 0x0002_1C70;
pub const DMA_VCFR0: u32 = 0x0002_1C7C;
pub const WTBL_OFF_RMVTCR: u32 = 0x0002_3008;
pub const USB_DMA_CFG: u32 = 0x0002_4000;
pub const SCH_REG4: u32 = 0x0000_4594;
pub const PSE_CLIENT_TX_PAD_DW2: u32 = 0x000C_0040;
pub const PSE_CLIENT_TX_PAD_DW3: u32 = 0x000C_0044;
pub const PSE_CLIENT_TX_PAD_DW4: u32 = 0x000C_0048;
pub const PSE_CLIENT_TX_PAD_DW5: u32 = 0x000C_004C;
pub const PSE_CLIENT_TX_PAD_DW6: u32 = 0x000C_0050;
pub const PSE_CLIENT_RXINF: u32 = 0x000C_0068;
pub const RMAC_CHFREQ: u32 = 0x0002_1890;

/// Number of writes in the MAC initialization sequence.
pub const MAC_INIT_SEQUENCE_LEN: usize = 29;

/// The MAC initialization sequence, in order.
pub open spec fn mac_init_sequence() -> Seq<RegWriteOp> {
    seq![
        RegWriteOp { addr: USB_DMA_CFG, val: 0x0018_0000 }, // Enable RxBulkEn & TxBulkEn
        RegWriteOp { addr: SCH_REG4, val: 0x0000_0000 }, // Normal LMAC prediction mode (exit bypass mode)
        RegWriteOp { addr: PSE_CLIENT_RXINF, val: 0x0000_0007 }, // Enable RX Group 1, 2, 3 to HIF port
        RegWriteOp { addr: PSE_CLIENT_TX_PAD_DW2, val: 0x0000_0000 },
        RegWriteOp { addr: PSE_CLIENT_TX_PAD_DW3, val: 0x0000_0001 }, // remain_tx_cnt = 1
        RegWriteOp { addr: PSE_CLIENT_TX_PAD_DW4, val: 0x0000_0000 },
        RegWriteOp { addr: PSE_CLIENT_TX_PAD_DW5, val: 0x0000_0020 }, // PID_DATA_AMPDU
        RegWriteOp { addr: PSE_CLIENT_TX_PAD_DW6, val: 0x0000_0000 },
        RegWriteOp { addr: TMAC_TCR, val: 0x0004_0001 }, // Enable TX & RX_RIFS_MODE (bit 18)
        RegWriteOp { addr: TMAC_CDTR, val: 0x0030_00E7 }, // CCK timing patch
        RegWriteOp { addr: TMAC_RRCR, val: 0x0000_0004 }, // Rate retry control
        RegWriteOp { addr: TMAC_TRCR, val: 0x8000_0000 }, // Throughput patch
        RegWriteOp { addr: ARB_SCR, val: 0x0000_0000 }, // Clear TXDIS & RXDIS
        RegWriteOp { addr: ARB_TQCR0, val: 0xFFFF_FFFF }, // Enable all TX queues
        RegWriteOp { addr: ARB_RQCR, val: 0x0000_000F }, // ARB_RQCR_RX_START | RXV_START | RXV_R_EN | RXV_T_EN (0x0F)
        RegWriteOp { addr: RMAC_RMACDR, val: 0x4000_0000 }, // SELECT_RXMAXLEN_20BIT
        RegWriteOp { addr: RMAC_MAXMINLEN, val: 0x0E01_9000 }, // Min 14 bytes (0x0E << 24) + Max 102400 (0x19000)
        RegWriteOp { addr: RMAC_RFCR, val: 0x0000_0002 }, // DROP_FCS_ERROR_FRAME (0x2), promiscuous disabled for HW Auto-ACK
        RegWriteOp { addr: RMAC_RFCR1, val: 0x0000_0000 },
        RegWriteOp { addr: RMAC_RMCR, val: 0x00F0_0000 }, // Enable RX Stream 0 & 1, Disable SMPS (0x00F00000)
        RegWriteOp { addr: AGG_AWSCR, val: 0x0000_0040 },
        RegWriteOp { addr: AGG_AWSCR1, val: 0x2A15_1410 },
        RegWriteOp { addr: AGG_AALCR, val: 0x0000_0010 },
        RegWriteOp { addr: AGG_AALCR1, val: 0x1515_1515 },
        RegWriteOp { addr: DMA_RCFR0, val: 0xC021_0000 }, // Route all RX packets to HIF
        RegWriteOp { addr: DMA_VCFR0, val: 0x0000_2000 }, // RxRing 1
        RegWriteOp { addr: DMA_DCR1, val: 0x0000_3800 }, // RXSM Groups 1, 2, 3 enable
        RegWriteOp { addr: WTBL_OFF_RMVTCR, val: 0x0080_0000 }, // RX_MV_MODE enable
        RegWriteOp { addr: PSE_CLIENT_RXINF, val: 0x0000_0007 }, // RXSH_GROUP1_EN | RXSH_GROUP2_EN | RXSH_GROUP3_EN -> route all RX groups to HIF
    ]
}

/// Writes the MAC initialization sequence to the front of `out_ops` and
/// returns its length; -28 (ENOSPC), `out_ops` untouched, when it does not fit.
pub fn build_mac_init_sequence(out_ops: &mut [RegWriteOp]) -> (r: Result<usize, i32>)
    ensures
        frame_written(old(out_ops)@, final(out_ops)@, r, mac_init_sequence()),
{
    let static_seq: [RegWriteOp; 29] = [
        RegWriteOp { addr: USB_DMA_CFG, val: 0x0018_0000 },
        RegWriteOp { addr: SCH_REG4, val: 0x0000_0000 },
        RegWriteOp { addr: PSE_CLIENT_RXINF, val: 0x0000_0007 },
        RegWriteOp { addr: PSE_CLIENT_TX_PAD_DW2, val: 0x0000_0000 },
        RegWriteOp { addr: PSE_CLIENT_TX_PAD_DW3, val: 0x0000_0001 },
        RegWriteOp { addr: PSE_CLIENT_TX_PAD_DW4, val: 0x0000_0000 },
        RegWriteOp { addr: PSE_CLIENT_TX_PAD_DW5, val: 0x0000_0020 },
        RegWriteOp { addr: PSE_CLIENT_TX_PAD_DW6, val: 0x0000_0000 },
        RegWriteOp { addr: TMAC_TCR, val: 0x0004_0001 },
        RegWriteOp { addr: TMAC_CDTR, val: 0x0030_00E7 },
        RegWriteOp { addr: TMAC_RRCR, val: 0x0000_0004 },
        RegWriteOp { addr: TMAC_TRCR, val: 0x8000_0000 },
        RegWriteOp { addr: ARB_SCR, val: 0x0000_0000 },
        RegWriteOp { addr: ARB_TQCR0, val: 0xFFFF_FFFF },
        RegWriteOp { addr: ARB_RQCR, val: 0x0000_000F },
        RegWriteOp { addr: RMAC_RMACDR, val: 0x4000_0000 },
        RegWriteOp { addr: RMAC_MAXMINLEN, val: 0x0E01_9000 },
        RegWriteOp { addr: RMAC_RFCR, val: 0x0000_0002 },
        RegWriteOp { addr: RMAC_RFCR1, val: 0x0000_0000 },
        RegWriteOp { addr: RMAC_RMCR, val: 0x00F0_0000 },
        RegWriteOp { addr: AGG_AWSCR, val: 0x0000_0040 },
        RegWriteOp { addr: AGG_AWSCR1, val: 0x2A15_1410 },
        RegWriteOp { addr: AGG_AALCR, val: 0x0000_0010 },
        RegWriteOp { addr: AGG_AALCR1, val: 0x1515_1515 },
        RegWriteOp { addr: DMA_RCFR0, val: 0xC021_0000 },
        RegWriteOp { addr: DMA_VCFR0, val: 0x0000_2000 },
        RegWriteOp { addr: DMA_DCR1, val: 0x0000_3800 },
        RegWriteOp { addr: WTBL_OFF_RMVTCR, val: 0x0080_0000 },
        RegWriteOp { addr: PSE_CLIENT_RXINF, val: 0x0000_0007 },
    ];
    assert(static_seq@ =~= mac_init_sequence());
    if out_ops.len() < MAC_INIT_SEQUENCE_LEN {
        return Err(-28);
    }
    write_at(out_ops, 0, &static_seq);
    assert(old(out_ops)@.take(0) + static_seq@ =~= mac_init_sequence());
    Ok(MAC_INIT_SEQUENCE_LEN)
}

/// First own-address register word: MAC bytes 0..4, little-endian.
pub open spec fn own_mac_word0(mac: Seq<u8>) -> u32 {
    (mac[0] as u32) | ((mac[1] as u32) << 8) | ((mac[2] as u32) << 16) | ((mac[3] as u32) << 24)
}

/// Second own-address register word: MAC bytes 4..6, little-endian, with the
/// enable bit 16 set.
pub open spec fn own_mac_word1(mac: Seq<u8>) -> u32 {
    (mac[4] as u32) | ((mac[5] as u32) << 8) | (1u32 << 16)
}

/// The two writes that program the own MAC address.
pub open spec fn own_mac_sequence(mac: Seq<u8>) -> Seq<RegWriteOp> {
    seq![
        RegWriteOp { addr: RMAC_OMA0R0, val: own_mac_word0(mac) },
        RegWriteOp { addr: RMAC_OMA0R1, val: own_mac_word1(mac) },
    ]
}

/// Writes the two own-address register writes for `mac`; -28 (ENOSPC),
/// `out_ops` untouched, when fewer than 2 slots are given.
pub fn build_own_mac_sequence(mac: &[u8; 6], out_ops: &mut [RegWriteOp]) -> (r: Result<usize, i32>)
    ensures
        frame_written(old(out_ops)@, final(out_ops)@, r, own_mac_sequence(mac@)),
{
    if out_ops.len() < 2 {
        return Err(-28);
    }
    let val0 = (mac[0] as u32) | ((mac[1] as u32) << 8) | ((mac[2] as u32) << 16) | ((
    mac[3] as u32) << 24);
    let val1 = (mac[4] as u32) | ((mac[5] as u32) << 8) | (1 << 16);
    out_ops[0] = RegWriteOp { addr: RMAC_OMA0R0, val: val0 };
    out_ops[1] = RegWriteOp { addr: RMAC_OMA0R1, val: val1 };
    assert(out_ops@ =~= own_mac_sequence(mac@) + old(out_ops)@.skip(2));
    Ok(2)
}

/// The own-address register words hold the MAC address: its six bytes can be
/// read back from them, and the enable bit is set.
pub proof fn lemma_own_mac_words_hold_mac(mac: Seq<u8>)
    requires
        mac.len() == 6,
    ensures
        own_mac_word0(mac) & 0xff == mac[0],
        (own_mac_word0(mac) >> 8) & 0xff == mac[1],
        (own_mac_word0(mac) >> 16) & 0xff == mac[2],
        own_mac_word0(mac) >> 24 == mac[3],
        own_mac_word1(mac) & 0xff == mac[4],
        (own_mac_word1(mac) >> 8) & 0xff == mac[5],
        (own_mac_word1(mac) >> 16) & 1 == 1,
{
    let (b0, b1, b2, b3, b4, b5) = (mac[0], mac[1], mac[2], mac[3], mac[4], mac[5]);
    assert(((b0 as u32) | ((b1 as u32) << 8) | ((b2 as u32) << 16) | ((b3 as u32) << 24)) & 0xff
        == b0) by (bit_vector);
    assert((((b0 as u32) | ((b1 as u32) << 8) | ((b2 as u32) << 16) | ((b3 as u32) << 24)) >> 8)
        & 0xff == b1) by (bit_vector);
    assert((((b0 as u32) | ((b1 as u32) << 8) | ((b2 as u32) << 16) | ((b3 as u32) << 24)) >> 16)
        & 0xff == b2) by (bit_vector);
    assert(((b0 as u32) | ((b1 as u32) << 8) | ((b2 as u32) << 16) | ((b3 as u32) << 24)) >> 24
        == b3) by (bit_vector);
    assert(((b4 as u32) | ((b5 as u32) << 8) | (1u32 << 16)) & 0xff == b4) by (bit_vector);
    assert((((b4 as u32) | ((b5 as u32) << 8) | (1u32 << 16)) >> 8) & 0xff == b5) by (bit_vector);
    assert((((b4 as u32) | ((b5 as u32) << 8) | (1u32 << 16)) >> 16) & 1 == 1) by (bit_vector);
}

/// The channel switch sequence: channel frequency enable, both RX streams,
/// RX start and RX vector enable, TX/RX disable cleared.
pub open spec fn channel_sequence() -> Seq<RegWriteOp> {
    seq![
        RegWriteOp { addr: RMAC_CHFREQ, val: 1 },
        RegWriteOp { addr: RMAC_RMCR, val: 0x00F0_0000 },
        RegWriteOp { addr: ARB_RQCR, val: 0x0000_000F },
        RegWriteOp { addr: ARB_SCR, val: 0x0000_0000 },
    ]
}

/// Writes the channel switch sequence for a 2.4 GHz channel.
///
/// A channel outside 1..=14 is refused with -22 (EINVAL), `out_ops` untouched;
/// otherwise the outcome is that of writing the sequence. The sequence does
/// not depend on the channel or the bandwidth.
pub fn build_channel_sequence(channel: u8, _bw: u8, out_ops: &mut [RegWriteOp]) -> (r: Result<
    usize,
    i32,
>)
    ensures
        !(1 <= channel <= 14) ==> r == Err::<usize, i32>(-22i32) && final(out_ops)@ == old(
            out_ops,
        )@,
        1 <= channel <= 14 ==> frame_written(
            old(out_ops)@,
            final(out_ops)@,
            r,
            channel_sequence(),
        ),
{
    if !(1 <= channel && channel <= 14) {
        return Err(-22);
    }
    let seq: [RegWriteOp; 4] = [
        RegWriteOp { addr: RMAC_CHFREQ, val: 1 },
        RegWriteOp { addr: RMAC_RMCR, val: 0x00F0_0000 },
        RegWriteOp { addr: ARB_RQCR, val: 0x0000_000F },
        RegWriteOp { addr: ARB_SCR, val: 0x0000_0000 },
    ];
    assert(seq@ =~= channel_sequence());
    if out_ops.len() < 4 {
        return Err(-28);
    }
    write_at(out_ops, 0, &seq);
    assert(old(out_ops)@.take(0) + seq@ =~= channel_sequence());
    Ok(4)
}

/// Every register the MAC initialization, channel and own-address sequences
/// write lies in a HIF region that has a global physical address, so each
/// write can be issued as a USB vendor request.
#[verifier::rlimit(50)]
pub proof fn lemma_mac_sequences_use_translated_addresses(mac: Seq<u8>)
    ensures
        forall|i: int|
            0 <= i < mac_init_sequence().len() ==> hif_addr_translated(
                #[trigger] mac_init_sequence()[i].addr,
            ),
        forall|i: int|
            0 <= i < channel_sequence().len() ==> hif_addr_translated(
                #[trigger] channel_sequence()[i].addr,
            ),
        forall|i: int|
            0 <= i < own_mac_sequence(mac).len() ==> hif_addr_translated(
                #[trigger] own_mac_sequence(mac)[i].addr,
            ),
{
    reveal_with_fuel(mac_cr_lookup, 18);
    assert forall|i: int| 0 <= i < mac_init_sequence().len() implies hif_addr_translated(
        #[trigger] mac_init_sequence()[i].addr,
    ) by {
        let a = mac_init_sequence()[i].addr;
        assert(spec_physical_addr_map(a) != a);
    }
}

} // verus!
