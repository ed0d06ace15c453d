//! The boot memory map the firmware hands over: an ordered sequence of
//! usable physical regions, consumed once during platform initialization
//! to populate the frame allocator.

use vstd::prelude::*;
use crate::allocator::{add_heap_model, has_empty_slot, FrameAllocator, Heap};

verus! {

/// One usable region `[start_address, start_address + length)` reported
/// by firmware.
#[derive(Clone, Copy, Debug, PartialEq, Eq, Structural)]
pub struct X8664MemorySegment {
    pub start_address: u64,
    pub length: u64,
}

impl X8664MemorySegment {
    /// The heap slot this segment binds.
    pub open spec fn as_heap(&self) -> Heap {
        Heap {
            start: self.start_address as usize,
            size: self.length as usize,
            next: self.start_address as usize,
        }
    }

    /// The region stays inside the address space.
    pub open spec fn well_formed(&self) -> bool {
        self.start_address as int + self.length as int <= usize::MAX
    }
}

/// Everything the boot path hands the kernel: the usable memory map, in
/// the order the firmware reported it.
#[derive(Clone, Debug, PartialEq, Eq)]
pub struct X8664BootInfo {
    pub memory_map: Vec<X8664MemorySegment>,
}

/// The allocator slots after every segment is offered in order: each one
/// binds the first slot still empty, and surplus segments are dropped.
pub open spec fn add_segments_model(heaps: Seq<Heap>, segments: Seq<X8664MemorySegment>) -> Seq<
    Heap,
>
    decreases segments.len(),
{
    if segments.len() == 0 {
        heaps
    } else {
        add_segments_model(add_heap_model(heaps, segments[0].as_heap()), segments.drop_first())
    }
}

/// How many of the offered segments find a slot: one for each segment
/// that still meets an empty slot as the map is worked through in order.
pub open spec fn accepted_count_model(heaps: Seq<Heap>, segments: Seq<X8664MemorySegment>) -> nat
    decreases segments.len(),
{
    if segments.len() == 0 {
        0
    } else {
        (if has_empty_slot(heaps) {
            1nat
        } else {
            0nat
        }) + accepted_count_model(
            add_heap_model(heaps, segments[0].as_heap()),
            segments.drop_first(),
        )
    }
}

/// Populate the allocator from the boot memory map, binding one heap slot
/// per segment in map order until the slots run out.  The returned count
/// is exactly the number of segments that found a slot; the dropped
/// remainder only costs the platform usable memory.
pub fn configure_allocator(allocator: &mut FrameAllocator, boot_info: &X8664BootInfo) -> (bound:
    usize)
    requires
        old(allocator).well_formed(),
        forall|j: int| 0 <= j < boot_info.memory_map@.len()
            ==> (#[trigger] boot_info.memory_map@[j]).well_formed(),
    ensures
        final(allocator).well_formed(),
        final(allocator)@ == add_segments_model(old(allocator)@, boot_info.memory_map@),
        bound == accepted_count_model(old(allocator)@, boot_info.memory_map@),
        bound <= boot_info.memory_map@.len(),
{
    let mut bound: usize = 0;
    let mut i: usize = 0;
    proof {
        assert(boot_info.memory_map@.skip(0) =~= boot_info.memory_map@);
    }
    while i < boot_info.memory_map.len()
        invariant
            allocator.well_formed(),
            i <= boot_info.memory_map@.len(),
            bound <= i,
            forall|j: int| 0 <= j < boot_info.memory_map@.len()
                ==> (#[trigger] boot_info.memory_map@[j]).well_formed(),
            add_segments_model(old(allocator)@, boot_info.memory_map@)
                == add_segments_model(allocator@, boot_info.memory_map@.skip(i as int)),
            accepted_count_model(old(allocator)@, boot_info.memory_map@)
                == bound + accepted_count_model(allocator@, boot_info.memory_map@.skip(i as int)),
        decreases boot_info.memory_map@.len() - i,
    {
        let segment = boot_info.memory_map[i];
        proof {
            let rest = boot_info.memory_map@.skip(i as int);
            assert(rest[0] == boot_info.memory_map@[i as int]);
            assert(rest.drop_first() =~= boot_info.memory_map@.skip(i as int + 1));
        }
        let accepted = allocator.add_heap(segment.start_address, segment.length);
        if accepted {
            bound = bound + 1;
        }
        i = i + 1;
    }
    proof {
        assert(boot_info.memory_map@.skip(boot_info.memory_map@.len() as int)
            =~= Seq::<X8664MemorySegment>::empty());
    }
    bound
}

} // verus!
