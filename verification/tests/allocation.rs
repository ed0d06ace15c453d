use kernel_core::allocator::{AllocError, FrameAllocator};
use kernel_core::boot_info::{configure_allocator, X8664BootInfo, X8664MemorySegment};
use kernel_core::bump_allocator::BumpAllocator;

#[test]
fn first_fit_across_regions() {
    let mut allocator = FrameAllocator::new();
    assert!(allocator.add_heap(1000, 100));
    assert!(allocator.add_heap(2000, 200));

    // 150 bytes fail against the 100-byte heap and land in the 200-byte one.
    assert_eq!(allocator.allocate(150, 1), Ok(2000));

    // Heap 2 is now reduced: another 150 bytes fit nowhere.
    assert_eq!(allocator.allocate(150, 1), Err(AllocError));

    // The first heap is still intact and serves smaller requests first.
    assert_eq!(allocator.allocate(60, 1), Ok(1000));

    // What is left of heap 2 continues from the watermark.
    assert_eq!(allocator.allocate(50, 1), Ok(2150));
}

#[test]
fn out_of_memory_leaves_no_partial_allocation() {
    let mut allocator = FrameAllocator::new();
    assert!(allocator.add_heap(1000, 100));
    assert!(allocator.add_heap(2000, 200));

    // Larger than all free space together: fatal, nothing is handed out.
    assert_eq!(allocator.allocate(1000, 1), Err(AllocError));

    // No heap changed: the full regions are still available.
    assert_eq!(allocator.allocate(100, 1), Ok(1000));
    assert_eq!(allocator.allocate(200, 1), Ok(2000));
}

#[test]
fn alignment_skips_to_the_next_boundary() {
    let mut allocator = FrameAllocator::new();
    assert!(allocator.add_heap(1001, 200));

    assert_eq!(allocator.allocate(16, 8), Ok(1008));
    assert_eq!(allocator.allocate(1, 1), Ok(1024));
    assert_eq!(allocator.allocate(4, 64), Ok(1088));
}

#[test]
fn surplus_regions_are_dropped() {
    let mut allocator = FrameAllocator::new();
    for slot in 0..50u64 {
        assert!(allocator.add_heap(0x10000 * (slot + 1), 0x1000));
    }
    assert!(!allocator.add_heap(0xf000_0000, 0x1000));

    // The dropped region serves nothing, the bound ones still do.
    assert_eq!(allocator.allocate(0x1000, 1), Ok(0x10000));
}

#[test]
fn boot_memory_map_populates_slots_in_order() {
    let mut allocator = FrameAllocator::new();
    let boot_info = X8664BootInfo {
        memory_map: vec![
            X8664MemorySegment { start_address: 0x1000, length: 0x100 },
            X8664MemorySegment { start_address: 0x8000, length: 0x4000 },
        ],
    };
    assert_eq!(configure_allocator(&mut allocator, &boot_info), 2);

    assert_eq!(allocator.allocate(0x200, 1), Ok(0x8000));
    assert_eq!(allocator.allocate(0x100, 1), Ok(0x1000));
}

#[test]
fn bump_allocator_hands_out_and_runs_dry() {
    let mut bump = BumpAllocator::new();
    bump.set_memory_region(0x4000, 0x4010);

    assert_eq!(bump.allocate(8), Ok(0x4000));
    assert_eq!(bump.allocate(8), Ok(0x4008));
    assert_eq!(bump.allocate(1), Err(AllocError));
}
