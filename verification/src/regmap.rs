//! MT7603U register address mapping.
//!
//! USB vendor requests address registers by their global physical address
//! (`wValue = addr[31:16]`, `wIndex = addr[15:0]`); the driver names them by
//! their HIF address. This module translates the latter into the former.

use vstd::prelude::*;

verus! {

/// Number of entries in the MAC control-register segment table.
pub const MAC_CR_RANGE_COUNT: usize = 17;

/// The MAC control-register segment table: (global base, HIF segment start,
/// segment length), in lookup order.
pub open spec fn mac_cr_ranges() -> Seq<(u32, u32, u32)> {
    seq![
        (0x6000_0000u32, 0x20000u32, 0x200u32),  // WF_CFG
        (0x6010_0000u32, 0x21000u32, 0x200u32),  // WF_TRB
        (0x6011_0000u32, 0x21200u32, 0x200u32),  // WF_AGG
        (0x6012_0000u32, 0x21400u32, 0x200u32),  // WF_ARB
        (0x6013_0000u32, 0x21600u32, 0x200u32),  // WF_TMAC
        (0x6014_0000u32, 0x21800u32, 0x200u32),  // WF_RMAC
        (0x6015_0000u32, 0x21a00u32, 0x200u32),  // WF_SEC
        (0x6016_0000u32, 0x21c00u32, 0x200u32),  // WF_DMA
        (0x6017_0000u32, 0x21e00u32, 0x200u32),  // WF_CFGOFF
        (0x6018_0000u32, 0x22000u32, 0x1000u32), // WF_PF
        (0x6019_0000u32, 0x23000u32, 0x200u32),  // WF_WTBLOFF
        (0x601a_0000u32, 0x23200u32, 0x200u32),  // WF_ETBF
        (0x6030_0000u32, 0x24000u32, 0x400u32),  // WF_LPON
        (0x6031_0000u32, 0x24400u32, 0x200u32),  // WF_INT
        (0x6032_0000u32, 0x28000u32, 0x4000u32), // WF_WTBLON
        (0x6033_0000u32, 0x2c000u32, 0x200u32),  // WF_MIB
        (0x6040_0000u32, 0x2d000u32, 0x200u32),  // WF_AON
    ]
}

/// `addr` lies in the `i`-th MAC control-register segment.
pub open spec fn in_mac_cr_range(addr: u32, i: int) -> bool {
    let (_base, start, len) = mac_cr_ranges()[i];
    start <= addr < start + len
}

/// Table lookup from entry `i` on: the first segment holding `addr` translates
/// it; when no segment holds it, the address is returned unchanged.
pub open spec fn mac_cr_lookup(addr: u32, i: int) -> u32
    decreases MAC_CR_RANGE_COUNT - i,
{
    if i < 0 || i >= MAC_CR_RANGE_COUNT {
        addr
    } else if in_mac_cr_range(addr, i) {
        let (base, start, _len) = mac_cr_ranges()[i];
        (base + (addr - start)) as u32
    } else {
        mac_cr_lookup(addr, i + 1)
    }
}

/// The HIF-to-physical address translation.
pub open spec fn spec_physical_addr_map(addr: u32) -> u32 {
    if addr < 0x2000 {
        (0x8002_0000 + addr) as u32  // TOP_CFG
    } else if addr < 0x4000 {
        (0x8000_0000 + addr - 0x2000) as u32  // MCU_CFG
    } else if addr < 0x8000 {
        (0x5000_0000 + addr - 0x4000) as u32  // PDMA_CFG
    } else if addr < 0x10000 {
        (0xa000_0000 + addr - 0x8000) as u32  // PSE_CFG
    } else if addr < 0x20000 {
        (0x6020_0000 + addr - 0x10000) as u32  // WF_PHY
    } else if addr < 0x40000 {
        mac_cr_lookup(addr, 0)  // MAC control registers
    } else if addr < 0x80000 {
        (0xa500_0000 + addr - 0x40000) as u32  // WTBL
    } else if 0xc0000 <= addr < 0xc0100 {
        (0x800c_0000 + addr - 0xc0000) as u32  // PSE client
    } else {
        addr
    }
}

/// Entry `i` of the MAC control-register segment table.
fn mac_cr_range(i: usize) -> (r: (u32, u32, u32))
    requires
        i < MAC_CR_RANGE_COUNT,
    ensures
        r == mac_cr_ranges()[i as int],
{
    match i {
        0 => (0x6000_0000, 0x20000, 0x200),
        1 => (0x6010_0000, 0x21000, 0x200),
        2 => (0x6011_0000, 0x21200, 0x200),
        3 => (0x6012_0000, 0x21400, 0x200),
        4 => (0x6013_0000, 0x21600, 0x200),
        5 => (0x6014_0000, 0x21800, 0x200),
        6 => (0x6015_0000, 0x21a00, 0x200),
        7 => (0x6016_0000, 0x21c00, 0x200),
        8 => (0x6017_0000, 0x21e00, 0x200),
        9 => (0x6018_0000, 0x22000, 0x1000),
        10 => (0x6019_0000, 0x23000, 0x200),
        11 => (0x601a_0000, 0x23200, 0x200),
        12 => (0x6030_0000, 0x24000, 0x400),
        13 => (0x6031_0000, 0x24400, 0x200),
        14 => (0x6032_0000, 0x28000, 0x4000),
        15 => (0x6033_0000, 0x2c000, 0x200),
        _ => (0x6040_0000, 0x2d000, 0x200),
    }
}

/// Maps a HIF (kernel-facing) register address to the global physical
/// address required for USB vendor requests.
pub fn physical_addr_map(addr: u32) -> (r: u32)
    ensures
        r == spec_physical_addr_map(addr),
{
    if addr < 0x2000 {
        0x8002_0000 + addr
    } else if addr < 0x4000 {
        0x8000_0000 + addr - 0x2000
    } else if addr < 0x8000 {
        0x5000_0000 + addr - 0x4000
    } else if addr < 0x10000 {
        0xa000_0000 + addr - 0x8000
    } else if addr < 0x20000 {
        0x6020_0000 + addr - 0x10000
    } else if addr < 0x40000 {
        mac_cr_range_map(addr)
    } else if addr < 0x80000 {
        0xa500_0000 + addr - 0x40000
    } else if 0xc0000 <= addr && addr < 0xc0100 {
        0x800c_0000 + addr - 0xc0000
    } else {
        addr
    }
}

/// Looks `addr` up in the MAC control-register segment table; an address in
/// no segment is returned unchanged.
fn mac_cr_range_map(addr: u32) -> (r: u32)
    ensures
        r == mac_cr_lookup(addr, 0),
{
    let mut i: usize = 0;
    while i < MAC_CR_RANGE_COUNT
        invariant
            i <= MAC_CR_RANGE_COUNT,
            mac_cr_lookup(addr, 0) == mac_cr_lookup(addr, i as int),
        decreases MAC_CR_RANGE_COUNT - i,
    {
        let (base, seg_start, seg_len) = mac_cr_range(i);
        if addr >= seg_start && addr < seg_start + seg_len {
            return base + (addr - seg_start);
        }
        i = i + 1;
    }
    addr
}

/// The translation moves `addr`: it lies in one of the mapped HIF regions (a
/// MAC control-register address in no segment, or an address outside all
/// regions, is passed through unchanged).
pub open spec fn hif_addr_translated(addr: u32) -> bool {
    spec_physical_addr_map(addr) != addr
}

/// Where each HIF register window lands in the global address space: the
/// TOP, MCU, PDMA, PSE, PHY, WTBL and PSE-client windows are moved by fixed
/// offsets, each MAC control-register segment starts at its block's base
/// (WF_CFG at 0x6000_0000, WF_TRB at 0x6010_0000, ...), and a MAC address
/// between segments is passed through.
pub proof fn lemma_physical_addr_windows(addr: u32)
    ensures
        ({
            let m = spec_physical_addr_map(addr) as int;
            &&& addr < 0x2000 ==> m == 0x8002_0000 + addr
            &&& 0x2000 <= addr < 0x4000 ==> m == 0x8000_0000 + (addr - 0x2000)
            &&& 0x4000 <= addr < 0x8000 ==> m == 0x5000_0000 + (addr - 0x4000)
            &&& 0x8000 <= addr < 0x10000 ==> m == 0xa000_0000 + (addr - 0x8000)
            &&& 0x10000 <= addr < 0x20000 ==> m == 0x6020_0000 + (addr - 0x10000)
            &&& 0x40000 <= addr < 0x80000 ==> m == 0xa500_0000 + (addr - 0x40000)
            &&& 0xc0000 <= addr < 0xc0100 ==> m == 0x800c_0000 + (addr - 0xc0000)
            &&& (0x80000 <= addr < 0xc0000 || 0xc0100 <= addr) ==> m == addr
            &&& 0x20200 <= addr < 0x21000 ==> m == addr
        }),
        ({
            let m = spec_physical_addr_map(addr) as int;
            &&& 0x20000 <= addr < 0x20200 ==> m == 0x60000000 + (addr - 0x20000)  // WF_CFG
            &&& 0x21000 <= addr < 0x21200 ==> m == 0x60100000 + (addr - 0x21000)  // WF_TRB
            &&& 0x21200 <= addr < 0x21400 ==> m == 0x60110000 + (addr - 0x21200)  // WF_AGG
            &&& 0x21400 <= addr < 0x21600 ==> m == 0x60120000 + (addr - 0x21400)  // WF_ARB
            &&& 0x21600 <= addr < 0x21800 ==> m == 0x60130000 + (addr - 0x21600)  // WF_TMAC
            &&& 0x21800 <= addr < 0x21a00 ==> m == 0x60140000 + (addr - 0x21800)  // WF_RMAC
            &&& 0x21a00 <= addr < 0x21c00 ==> m == 0x60150000 + (addr - 0x21a00)  // WF_SEC
            &&& 0x21c00 <= addr < 0x21e00 ==> m == 0x60160000 + (addr - 0x21c00)  // WF_DMA
            &&& 0x21e00 <= addr < 0x22000 ==> m == 0x60170000 + (addr - 0x21e00)  // WF_CFGOFF
            &&& 0x22000 <= addr < 0x23000 ==> m == 0x60180000 + (addr - 0x22000)  // WF_PF
            &&& 0x23000 <= addr < 0x23200 ==> m == 0x60190000 + (addr - 0x23000)  // WF_WTBLOFF
            &&& 0x23200 <= addr < 0x23400 ==> m == 0x601a0000 + (addr - 0x23200)  // WF_ETBF
            &&& 0x24000 <= addr < 0x24400 ==> m == 0x60300000 + (addr - 0x24000)  // WF_LPON
            &&& 0x24400 <= addr < 0x24600 ==> m == 0x60310000 + (addr - 0x24400)  // WF_INT
            &&& 0x28000 <= addr < 0x2c000 ==> m == 0x60320000 + (addr - 0x28000)  // WF_WTBLON
            &&& 0x2c000 <= addr < 0x2c200 ==> m == 0x60330000 + (addr - 0x2c000)  // WF_MIB
            &&& 0x2d000 <= addr < 0x2d200 ==> m == 0x60400000 + (addr - 0x2d000)  // WF_AON
        }),
{
    reveal_with_fuel(mac_cr_lookup, 18);
}

} // verus!
