use salmiak::gpu::mailbox::ARMMemory;
use salmiak::memory::{
    build_lvl1_table, build_lvl2_table, build_lvl3_table, heap_range, mair_el1_value,
    sctlr_el1_enable_bits, tcr_el1_value, MB, MMIO_LVL2_INDEX, NUM_ENTRIES_4KIB,
};

#[test]
fn lvl3_table_shape() {
    // Read-only window on pages 1 and 2.
    let t = build_lvl3_table(1, 3);
    assert_eq!(t.len(), NUM_ENTRIES_4KIB);
    // Page 0: valid page, normal inner-shareable, access flag, read-write,
    // execute-never, mapping page 0.
    assert_eq!(t[0], 0x0040_0000_0000_0707);
    // Page 1: read-only at EL1 and executable, mapping page 1.
    assert_eq!(t[1], 0x1787);
    assert_eq!(t[2], 0x2787);
    // Past the window: read-write, execute-never again.
    assert_eq!(t[3], 0x0040_0000_0000_3707);
    assert_eq!(t[511], 0x0040_0000_001f_f707);
}

#[test]
fn lvl3_table_without_window() {
    // A window outside level-3 coverage leaves every page writable.
    let t = build_lvl3_table(4096, 4096);
    for j in 0..NUM_ENTRIES_4KIB {
        assert_eq!(t[j] & (1 << 54), 1 << 54);
        assert_eq!((t[j] >> 6) & 0b11, 0);
    }
}

#[test]
fn lvl2_table_shape() {
    let t = build_lvl2_table(0x5000);
    assert_eq!(t.len(), NUM_ENTRIES_4KIB);
    // Entry 0 refers to the level-3 table.
    assert_eq!(t[0], 0x5003);
    // Below the MMIO threshold: inner-shareable normal memory blocks.
    assert_eq!(t[1], 0x0040_0000_0020_0705);
    assert_eq!(t[503], 0x0040_0000_3ee0_0705);
    // At and above the threshold: outer-shareable device memory blocks.
    assert_eq!(t[504], 0x0040_0000_3f00_0601);
    assert_eq!(t[511], 0x0040_0000_3fe0_0601);
    assert_eq!(MMIO_LVL2_INDEX, 0x3f00_0000u64 >> 21);
}

#[test]
fn lvl1_table_shape() {
    let t = build_lvl1_table(0x6000);
    assert_eq!(t.len(), NUM_ENTRIES_4KIB);
    assert_eq!(t[0], 0x6003);
    // Entry 1 block-maps 1-2 GiB as device memory.
    assert_eq!(t[1], 0x0040_0000_4000_0601);
    for j in 2..NUM_ENTRIES_4KIB {
        assert_eq!(t[j], 0);
    }
}

#[test]
fn heap_range_rounds_up_to_mebibyte() {
    let arm = ARMMemory::new(0, 0x2000_0000);
    let (hs, he) = heap_range(0x12_3456, &arm).unwrap();
    assert_eq!(hs, 2 * MB);
    assert_eq!(he, 0x2000_0000);
}

#[test]
fn heap_range_rejects_image_outside_window() {
    // The image must end past the window's base.
    let arm = ARMMemory::new(0x8000, 0x2000_0000);
    assert!(heap_range(0x8000, &arm).is_none());
    assert!(heap_range(0x100, &arm).is_none());
    assert!(heap_range(0x8001, &arm).is_some());
}

#[test]
fn heap_range_rejects_start_past_window_end() {
    // Rounding the image end up to a mebibyte may leave no heap at all:
    // exactly empty is still a region, past the end is not.
    let arm = ARMMemory::new(0, 0x10_0000);
    assert_eq!(heap_range(1, &arm), Some((0x10_0000, 0x10_0000)));
    assert!(heap_range(0x10_0001, &arm).is_none());
    assert!(heap_range(0, &arm).is_none());
}

#[test]
fn mmu_register_values() {
    assert_eq!(mair_el1_value(), 0xff04);
    // Intermediate physical address size 2 (40 bits).
    assert_eq!(tcr_el1_value(2), 0x22_0000_3519);
    assert_eq!(sctlr_el1_enable_bits(), 0x1005);
}
