//! Memory subsystem: the heap region handed to the bump allocator, and the
//! stage-1 translation tables that identity-map DRAM as normal cacheable
//! memory, the MMIO aperture as device memory, and the read-only image
//! window as non-writable and executable. Writing the table base, control
//! and system registers, and the barriers around the MMU switch-on, are the
//! machine-facing shell's; every descriptor and register value is computed
//! and proved here.

pub mod allocator;

use crate::gpu::mailbox::ARMMemory;
use crate::memory::allocator::{align_up, lemma_common_powers_of_two, spec_align_up};
use vstd::prelude::*;

verus! {

/// One mebibyte; the heap start is rounded up to this boundary.
pub const MB: usize = 0x10_0000;

/// Entries per translation table with a 4 KiB granule.
pub const NUM_ENTRIES_4KIB: usize = 512;

/// Base of the memory-mapped I/O aperture.
pub const MMIO_BASE: u32 = 0x3f00_0000;

/// First level-2 index whose 2 MiB block lies in the MMIO aperture.
pub const MMIO_LVL2_INDEX: u64 = 504;

/// Stage-1 descriptor bit: the descriptor is valid.
pub const DESC_VALID: u64 = 1;

/// Stage-1 descriptor bit: table descriptor (at level 3: page descriptor).
pub const DESC_TYPE_TABLE: u64 = 0x2;

/// Memory-attribute index of normal write-back memory in MAIR_EL1.
pub const DESC_ATTRIDX_NORMAL: u64 = 0x4;

/// Access permissions: read-only at EL1.
pub const DESC_AP_RO_EL1: u64 = 0x80;

/// Shareability: outer shareable.
pub const DESC_SH_OUTER: u64 = 0x200;

/// Shareability: inner shareable.
pub const DESC_SH_INNER: u64 = 0x300;

/// Access flag: the page or block has been touched.
pub const DESC_AF: u64 = 0x400;

/// Execute-never: instruction fetches from the region fault.
pub const DESC_XN: u64 = 0x40_0000_0000_0000;

/// A table descriptor: valid, of table type, carrying the 4 KiB-aligned
/// base address of the next-level table in bits 47:12.
pub open spec fn spec_table_descriptor(base: u64) -> u64 {
    ((base >> 12) << 12) | DESC_VALID | DESC_TYPE_TABLE
}

/// The level-2 block descriptor for index `idx`: an identity-mapped 2 MiB
/// block, read-write at EL1, execute-never, access-flagged; inner-shareable
/// normal memory below the MMIO threshold, outer-shareable device memory at
/// or above it.
pub open spec fn spec_lvl2_block_entry(idx: u64) -> u64 {
    if idx >= MMIO_LVL2_INDEX {
        DESC_VALID | DESC_AF | DESC_XN | DESC_SH_OUTER | (idx << 21)
    } else {
        DESC_VALID | DESC_AF | DESC_XN | DESC_SH_INNER | DESC_ATTRIDX_NORMAL | (idx << 21)
    }
}

/// The level-1 block descriptor mapping the 1–2 GiB region as
/// outer-shareable device memory, read-write, execute-never.
pub open spec fn spec_lvl1_device_entry() -> u64 {
    DESC_VALID | DESC_AF | DESC_XN | DESC_SH_OUTER | (1u64 << 30)
}

/// The level-3 page descriptor for page `idx`: an identity-mapped 4 KiB
/// page of inner-shareable normal memory with the access flag set;
/// read-only and executable inside the read-only window, read-write and
/// execute-never outside it.
pub open spec fn spec_lvl3_page_entry(idx: u64, ro: bool) -> u64 {
    if ro {
        DESC_VALID | DESC_TYPE_TABLE | DESC_ATTRIDX_NORMAL | DESC_SH_INNER | DESC_AF
            | DESC_AP_RO_EL1 | (idx << 12)
    } else {
        DESC_VALID | DESC_TYPE_TABLE | DESC_ATTRIDX_NORMAL | DESC_SH_INNER | DESC_AF | DESC_XN | (
        idx << 12)
    }
}

/// Build the level-3 table: 512 page descriptors covering the first 2 MiB,
/// read-only and executable exactly on the pages of
/// `[ro_start_page, ro_end_page)`.
pub fn build_lvl3_table(ro_start_page: u64, ro_end_page: u64) -> (t: Vec<u64>)
    ensures
        t@.len() == NUM_ENTRIES_4KIB,
        forall|j: int|
            0 <= j < NUM_ENTRIES_4KIB ==> t@[j] == spec_lvl3_page_entry(
                j as u64,
                ro_start_page <= j < ro_end_page,
            ),
{
    let mut t: Vec<u64> = Vec::new();
    let mut j: usize = 0;
    while j < NUM_ENTRIES_4KIB
        invariant
            j <= NUM_ENTRIES_4KIB,
            t@.len() == j,
            forall|k: int|
                0 <= k < j ==> t@[k] == spec_lvl3_page_entry(
                    k as u64,
                    ro_start_page <= k < ro_end_page,
                ),
        decreases NUM_ENTRIES_4KIB - j,
    {
        let idx = j as u64;
        let ro = ro_start_page <= idx && idx < ro_end_page;
        let entry = if ro {
            DESC_VALID | DESC_TYPE_TABLE | DESC_ATTRIDX_NORMAL | DESC_SH_INNER | DESC_AF
                | DESC_AP_RO_EL1 | (idx << 12)
        } else {
            DESC_VALID | DESC_TYPE_TABLE | DESC_ATTRIDX_NORMAL | DESC_SH_INNER | DESC_AF | DESC_XN
                | (idx << 12)
        };
        t.push(entry);
        j += 1;
    }
    t
}

/// Build the level-2 table: entry 0 points at the level-3 table, entries
/// 1..512 identity-map 2 MiB blocks, device memory from the MMIO threshold
/// upward.
pub fn build_lvl2_table(lvl3_base: u64) -> (t: Vec<u64>)
    requires
        lvl3_base % 4096 == 0,
    ensures
        t@.len() == NUM_ENTRIES_4KIB,
        t@[0] == spec_table_descriptor(lvl3_base),
        forall|j: int| 1 <= j < NUM_ENTRIES_4KIB ==> t@[j] == spec_lvl2_block_entry(j as u64),
{
    let mut t: Vec<u64> = Vec::new();
    t.push(((lvl3_base >> 12) << 12) | DESC_VALID | DESC_TYPE_TABLE);
    let mut j: usize = 1;
    while j < NUM_ENTRIES_4KIB
        invariant
            1 <= j <= NUM_ENTRIES_4KIB,
            t@.len() == j,
            t@[0] == spec_table_descriptor(lvl3_base),
            forall|k: int| 1 <= k < j ==> t@[k] == spec_lvl2_block_entry(k as u64),
        decreases NUM_ENTRIES_4KIB - j,
    {
        let idx = j as u64;
        let entry = if idx >= MMIO_LVL2_INDEX {
            DESC_VALID | DESC_AF | DESC_XN | DESC_SH_OUTER | (idx << 21)
        } else {
            DESC_VALID | DESC_AF | DESC_XN | DESC_SH_INNER | DESC_ATTRIDX_NORMAL | (idx << 21)
        };
        t.push(entry);
        j += 1;
    }
    t
}

/// Build the level-1 table: entry 0 points at the level-2 table, entry 1
/// block-maps the 1–2 GiB region as device memory, everything else is
/// invalid.
pub fn build_lvl1_table(lvl2_base: u64) -> (t: Vec<u64>)
    requires
        lvl2_base % 4096 == 0,
    ensures
        t@.len() == NUM_ENTRIES_4KIB,
        t@[0] == spec_table_descriptor(lvl2_base),
        t@[1] == spec_lvl1_device_entry(),
        forall|j: int| 2 <= j < NUM_ENTRIES_4KIB ==> t@[j] == 0,
{
    let mut t: Vec<u64> = Vec::new();
    t.push(((lvl2_base >> 12) << 12) | DESC_VALID | DESC_TYPE_TABLE);
    t.push(DESC_VALID | DESC_AF | DESC_XN | DESC_SH_OUTER | (1u64 << 30));
    let mut j: usize = 2;
    while j < NUM_ENTRIES_4KIB
        invariant
            2 <= j <= NUM_ENTRIES_4KIB,
            t@.len() == j,
            t@[0] == spec_table_descriptor(lvl2_base),
            t@[1] == spec_lvl1_device_entry(),
            forall|k: int| 2 <= k < j ==> t@[k] == 0,
        decreases NUM_ENTRIES_4KIB - j,
    {
        t.push(0);
        j += 1;
    }
    t
}

/// What the level-3 descriptors enforce once the MMU is on: every page is a
/// valid, access-flagged page of inner-shareable normal memory mapping its
/// own page number; inside the read-only window it is read-only at EL1 and
/// executable — a store there raises a permission fault — and outside it is
/// read-write and execute-never — an instruction fetch there faults.
pub proof fn lemma_lvl3_access_bits(idx: u64, ro: bool)
    requires
        idx < 512,
    ensures
        ({
            let e = spec_lvl3_page_entry(idx, ro);
            &&& e & 1 == 1
            &&& (e >> 1) & 1 == 1
            &&& (e >> 2) & 0b111 == 1
            &&& (e >> 8) & 0b11 == 0b11
            &&& (e >> 10) & 1 == 1
            &&& (e >> 12) & 0xf_ffff_ffff == idx
            &&& ro ==> (e >> 6) & 0b11 == 0b10 && (e >> 54) & 1 == 0
            &&& !ro ==> (e >> 6) & 0b11 == 0b00 && (e >> 54) & 1 == 1
        }),
{
    let e = spec_lvl3_page_entry(idx, ro);
    if ro {
        assert({
            let e = (DESC_VALID | DESC_TYPE_TABLE | DESC_ATTRIDX_NORMAL | DESC_SH_INNER | DESC_AF
                | DESC_AP_RO_EL1 | (idx << 12));
            e & 1 == 1 && (e >> 1) & 1 == 1 && (e >> 2) & 0b111 == 1 && (e >> 8) & 0b11 == 0b11 && (
            e >> 10) & 1 == 1 && (e >> 12) & 0xf_ffff_ffff == idx && (e >> 6) & 0b11 == 0b10 && (e
                >> 54) & 1 == 0
        }) by (bit_vector)
            requires
                idx < 512,
        ;
    } else {
        assert({
            let e = (DESC_VALID | DESC_TYPE_TABLE | DESC_ATTRIDX_NORMAL | DESC_SH_INNER | DESC_AF
                | DESC_XN | (idx << 12));
            e & 1 == 1 && (e >> 1) & 1 == 1 && (e >> 2) & 0b111 == 1 && (e >> 8) & 0b11 == 0b11 && (
            e >> 10) & 1 == 1 && (e >> 12) & 0xf_ffff_ffff == idx && (e >> 6) & 0b11 == 0b00 && (e
                >> 54) & 1 == 1
        }) by (bit_vector)
            requires
                idx < 512,
        ;
    }
}

/// What the level-2 descriptors enforce: every entry above 0 is a valid,
/// access-flagged, execute-never block mapping its own 2 MiB region; below
/// the MMIO threshold it is inner-shareable normal memory, at or above it
/// outer-shareable device memory.
pub proof fn lemma_lvl2_attribute_split(idx: u64)
    requires
        1 <= idx < 512,
    ensures
        ({
            let e = spec_lvl2_block_entry(idx);
            &&& e & 1 == 1
            &&& (e >> 1) & 1 == 0
            &&& (e >> 10) & 1 == 1
            &&& (e >> 54) & 1 == 1
            &&& (e >> 21) & 0x7ff_ffff == idx
            &&& idx < MMIO_LVL2_INDEX ==> (e >> 2) & 0b111 == 1 && (e >> 8) & 0b11 == 0b11
            &&& idx >= MMIO_LVL2_INDEX ==> (e >> 2) & 0b111 == 0 && (e >> 8) & 0b11 == 0b10
        }),
{
    if idx >= MMIO_LVL2_INDEX {
        assert({
            let e = (DESC_VALID | DESC_AF | DESC_XN | DESC_SH_OUTER | (idx << 21));
            e & 1 == 1 && (e >> 1) & 1 == 0 && (e >> 10) & 1 == 1 && (e >> 54) & 1 == 1 && (e >> 21)
                & 0x7ff_ffff == idx && (e >> 2) & 0b111 == 0 && (e >> 8) & 0b11 == 0b10
        }) by (bit_vector)
            requires
                1 <= idx < 512,
        ;
    } else {
        assert({
            let e = (DESC_VALID | DESC_AF | DESC_XN | DESC_SH_INNER | DESC_ATTRIDX_NORMAL | (idx
                << 21));
            e & 1 == 1 && (e >> 1) & 1 == 0 && (e >> 10) & 1 == 1 && (e >> 54) & 1 == 1 && (e >> 21)
                & 0x7ff_ffff == idx && (e >> 2) & 0b111 == 1 && (e >> 8) & 0b11 == 0b11
        }) by (bit_vector)
            requires
                1 <= idx < 512,
        ;
    }
}

/// A table descriptor built from a 4 KiB-aligned base below the 48-bit
/// address limit is valid, of table type, and carries that base unchanged.
pub proof fn lemma_table_descriptor_bits(base: u64)
    requires
        base % 4096 == 0,
        base < 0x1_0000_0000_0000,
    ensures
        spec_table_descriptor(base) == base + 3,
        spec_table_descriptor(base) & 1 == 1,
        (spec_table_descriptor(base) >> 1) & 1 == 1,
{
    assert(base % 4096 == 0 && base < 0x1_0000_0000_0000 ==> (((base >> 12) << 12) | 1u64 | 2u64)
        == base + 3 && (((base >> 12) << 12) | 1u64 | 2u64) & 1 == 1 && ((((base >> 12) << 12)
        | 1u64 | 2u64) >> 1) & 1 == 1) by (bit_vector);
}

/// The heap the kernel hands its allocator: from the end of the loaded
/// image rounded up to a mebibyte, to the end of the DRAM window the
/// firmware reported. Nothing when the image does not end inside the window
/// or the rounded start would lie past its end.
pub fn heap_range(kernel_end: usize, arm: &ARMMemory) -> (r: Option<(usize, usize)>)
    requires
        kernel_end + MB <= usize::MAX,
        arm.base_address + arm.size <= usize::MAX,
    ensures
        ({
            let hs = spec_align_up(kernel_end as int, MB as int);
            let he = arm.base_address + arm.size;
            &&& r is Some <==> arm.base_address < kernel_end && hs <= he
            &&& r matches Some(p) ==> p.0 == hs && p.1 == he
        }),
{
    if kernel_end <= arm.base_address {
        return None;
    }
    proof {
        lemma_common_powers_of_two();
    }
    let hs = align_up(kernel_end, MB);
    let he = arm.base_address + arm.size;
    if hs > he {
        return None;
    }
    Some((hs, he))
}

/// The memory-attribute-indirection value the MMU setup programs:
/// attribute 0 is device-nGnRE, attribute 1 is outer and inner write-back
/// non-transient read-allocate write-allocate normal memory.
pub fn mair_el1_value() -> (r: u64)
    ensures
        r == 0xff04,
{
    0xff04
}

/// The translation-control value the MMU setup programs: top byte ignored,
/// the given intermediate-physical-address size, a 4 KiB granule,
/// inner-shareable write-back read-allocate write-allocate table walks
/// through TTBR0, and walks starting at level 1 (`T0SZ` = 25).
pub fn tcr_el1_value(ips: u64) -> (r: u64)
    requires
        ips < 8,
    ensures
        r == (1u64 << 37) | (ips << 32) | (0b11u64 << 12) | (0b01u64 << 10) | (0b01u64 << 8) | 25,
{
    (1u64 << 37) | (ips << 32) | (0b11 << 12) | (0b01 << 10) | (0b01 << 8) | 25
}

/// The system-control bits the MMU switch-on sets: address translation,
/// the data cache and the instruction cache.
pub fn sctlr_el1_enable_bits() -> (r: u64)
    ensures
        r == 1 | (1u64 << 2) | (1u64 << 12),
{
    1 | (1 << 2) | (1 << 12)
}

} // verus!
