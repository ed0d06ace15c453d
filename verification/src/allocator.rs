//! The multi-region physical memory allocator: a fixed array of heap
//! slots, each empty or bound to one usable region from the boot memory
//! map, serving allocation requests first-fit across the slots in order.
//!
//! Nothing is ever deallocated in this design, so a bound region is fully
//! described by its bounds and a watermark: everything below the watermark
//! has been handed out, everything from the watermark to the end is free.
//! Deallocation is a documented gap of the design, not provided here.

use vstd::prelude::*;

verus! {

/// How many regions the allocator can hold; surplus regions are dropped
/// with a warning and the platform simply has less usable memory.
pub const HEAP_SLOTS: usize = 50;

/// An allocation failed: every bound heap was exhausted.  Fatal at the
/// call site — a bare-metal kernel has no higher authority to recover to.
#[derive(Clone, Copy, Debug, PartialEq, Eq, Structural)]
pub struct AllocError;

/// One heap slot: a contiguous physical region `[start, start + size)`
/// and the watermark below which memory has been handed out.  A slot with
/// size zero is empty.
#[derive(Clone, Copy, Debug, PartialEq, Eq, Structural)]
pub struct Heap {
    pub start: usize,
    pub size: usize,
    pub next: usize,
}

impl Heap {
    /// The watermark sits inside the region and nothing overflows the
    /// address space.
    pub open spec fn well_formed(&self) -> bool {
        self.start <= self.next <= self.start + self.size <= usize::MAX
    }

    /// How many bytes this heap can still hand out.
    pub open spec fn free(&self) -> int {
        self.start + self.size - self.next
    }

    /// An empty slot, bound to no region.
    pub fn empty() -> (r: Self)
        ensures
            r == (Heap { start: 0usize, size: 0usize, next: 0usize }),
    {
        Heap { start: 0, size: 0, next: 0 }
    }
}

/// The next address at or above `addr` that is a multiple of `align`.
pub open spec fn align_up(addr: int, align: int) -> int {
    if addr % align == 0 {
        addr
    } else {
        addr + align - addr % align
    }
}

/// Whether a first-fit allocation of `size` bytes aligned to `align`
/// succeeds inside this heap.
pub open spec fn fits(h: Heap, size: int, align: int) -> bool {
    align_up(h.next as int, align) + size <= h.start + h.size
}

/// The heap after such an allocation: the watermark moves past the
/// aligned block.
pub open spec fn heap_after_alloc(h: Heap, size: int, align: int) -> Heap {
    Heap {
        start: h.start,
        size: h.size,
        next: (align_up(h.next as int, align) + size) as usize,
    }
}

/// Whether some slot is still empty.
pub open spec fn has_empty_slot(heaps: Seq<Heap>) -> bool {
    exists|j: int| 0 <= j < heaps.len() && (#[trigger] heaps[j]).size == 0
}

/// The index of the first empty slot.
pub open spec fn first_empty_slot(heaps: Seq<Heap>) -> int {
    choose|j: int|
        0 <= j < heaps.len() && (#[trigger] heaps[j]).size == 0
            && forall|k: int| 0 <= k < j ==> (#[trigger] heaps[k]).size != 0
}

/// What binding a region does to the row of slots: the first empty slot
/// takes it; with no empty slot left the row is unchanged.
pub open spec fn add_heap_model(heaps: Seq<Heap>, h: Heap) -> Seq<Heap> {
    if has_empty_slot(heaps) {
        heaps.update(first_empty_slot(heaps), h)
    } else {
        heaps
    }
}

/// The free space summed over all slots.
pub open spec fn total_free(heaps: Seq<Heap>) -> int
    decreases heaps.len(),
{
    if heaps.len() == 0 {
        0
    } else {
        heaps[0].free() + total_free(heaps.drop_first())
    }
}

/// In a well-formed row of heaps, no single heap has more free space than
/// all of them together.
pub proof fn lemma_free_at_most_total(heaps: Seq<Heap>, i: int)
    requires
        forall|j: int| 0 <= j < heaps.len() ==> (#[trigger] heaps[j]).well_formed(),
        0 <= i < heaps.len(),
    ensures
        heaps[i].free() <= total_free(heaps),
        0 <= total_free(heaps),
    decreases heaps.len(),
{
    assert(heaps.drop_first().len() == heaps.len() - 1);
    assert(forall|j: int| 0 <= j < heaps.drop_first().len()
        ==> (#[trigger] heaps.drop_first()[j]) == heaps[j + 1]);
    if heaps.len() > 0 {
        if i == 0 {
            lemma_total_free_nonnegative(heaps.drop_first());
        } else {
            lemma_free_at_most_total(heaps.drop_first(), i - 1);
        }
    }
}

/// With every heap well formed, the total free space is not negative.
pub proof fn lemma_total_free_nonnegative(heaps: Seq<Heap>)
    requires
        forall|j: int| 0 <= j < heaps.len() ==> (#[trigger] heaps[j]).well_formed(),
    ensures
        0 <= total_free(heaps),
    decreases heaps.len(),
{
    if heaps.len() > 0 {
        assert(forall|j: int| 0 <= j < heaps.drop_first().len()
            ==> (#[trigger] heaps.drop_first()[j]) == heaps[j + 1]);
        lemma_total_free_nonnegative(heaps.drop_first());
    }
}

/// Out-of-memory, whole-allocator form: a request larger than the free
/// space summed over every bound heap fits nowhere, so the allocation
/// fails outright rather than being partially satisfied.
pub proof fn lemma_out_of_memory(heaps: Seq<Heap>, size: int, align: int)
    requires
        forall|j: int| 0 <= j < heaps.len() ==> (#[trigger] heaps[j]).well_formed(),
        0 < align,
        total_free(heaps) < size,
    ensures
        forall|j: int| 0 <= j < heaps.len() ==> !fits(#[trigger] heaps[j], size, align),
{
    assert forall|j: int| 0 <= j < heaps.len() implies !fits(#[trigger] heaps[j], size, align) by {
        lemma_free_at_most_total(heaps, j);
        lemma_align_up_at_least(heaps[j].next as int, align);
    }
}

/// Aligning an address never moves it down.
proof fn lemma_align_up_at_least(addr: int, align: int)
    requires
        0 < align,
        0 <= addr,
    ensures
        addr <= align_up(addr, align),
{
    if addr % align != 0 {
        assert(0 <= addr % align < align) by (nonlinear_arith)
            requires 0 < align && 0 <= addr;
    }
}

/// The heap-of-heaps allocator built once from the boot memory map.
pub struct FrameAllocator {
    heaps: Vec<Heap>,
}

impl View for FrameAllocator {
    type V = Seq<Heap>;

    closed spec fn view(&self) -> Seq<Heap> {
        self.heaps@
    }
}

impl FrameAllocator {
    /// Always exactly `HEAP_SLOTS` slots, every one inside the address
    /// space.
    pub open spec fn well_formed(&self) -> bool {
        &&& self@.len() == HEAP_SLOTS
        &&& forall|j: int| 0 <= j < self@.len() ==> (#[trigger] self@[j]).well_formed()
    }

    /// Start with every slot empty.
    pub fn new() -> (r: Self)
        ensures
            r.well_formed(),
            forall|j: int| 0 <= j < r@.len() ==> (#[trigger] r@[j]).size == 0,
    {
        let mut heaps: Vec<Heap> = Vec::new();
        let mut i: usize = 0;
        while i < HEAP_SLOTS
            invariant
                i <= HEAP_SLOTS,
                heaps@.len() == i,
                forall|j: int| 0 <= j < heaps@.len()
                    ==> (#[trigger] heaps@[j]) == (Heap { start: 0usize, size: 0usize, next: 0usize }),
            decreases HEAP_SLOTS - i,
        {
            heaps.push(Heap::empty());
            i = i + 1;
        }
        FrameAllocator { heaps }
    }

    /// Bind the first empty slot to the region `[start_address,
    /// start_address + size)`.  With no empty slot left the region is
    /// dropped, the allocator is untouched, and the returned flag tells
    /// the shim to log its warning — the only observable effect.
    pub fn add_heap(&mut self, start_address: u64, size: u64) -> (accepted: bool)
        requires
            old(self).well_formed(),
            start_address as int + size as int <= usize::MAX,
        ensures
            final(self).well_formed(),
            accepted <==> has_empty_slot(old(self)@),
            final(self)@ == add_heap_model(
                old(self)@,
                Heap {
                    start: start_address as usize,
                    size: size as usize,
                    next: start_address as usize,
                },
            ),
    {
        let ghost pre = self@;
        let mut i: usize = 0;
        while i < self.heaps.len()
            invariant
                pre == old(self)@,
                self@ == pre,
                self.well_formed(),
                start_address as int + size as int <= usize::MAX,
                i <= self@.len(),
                forall|k: int| 0 <= k < i ==> (#[trigger] self@[k]).size != 0,
            decreases self@.len() - i,
        {
            if self.heaps[i].size == 0 {
                let heap = Heap {
                    start: start_address as usize,
                    size: size as usize,
                    next: start_address as usize,
                };
                proof {
                    assert((i as int) < old(self)@.len()
                        && (#[trigger] old(self)@[i as int]).size == 0);
                }
                self.heaps[i] = heap;
                proof {
                    assert(heap.well_formed());
                    assert(self@ == old(self)@.update(i as int, heap));
                    assert(has_empty_slot(old(self)@));
                    let j = first_empty_slot(old(self)@);
                    if j < i as int {
                        assert(old(self)@[j].size != 0);
                    }
                    if j > i as int {
                        assert(old(self)@[i as int].size != 0);
                    }
                    assert(j == i as int);
                }
                return true;
            }
            i = i + 1;
        }
        false
    }

    /// First-fit across regions: try each slot in order and serve the
    /// request from the first heap with enough aligned free space, moving
    /// only that heap's watermark.  When every heap is exhausted the
    /// request fails as out-of-memory and no heap changes — there is no
    /// partial allocation.
    pub fn allocate(&mut self, size: usize, align: usize) -> (r: Result<usize, AllocError>)
        requires
            old(self).well_formed(),
            0 < align,
        ensures
            final(self).well_formed(),
            (match r {
                Ok(addr) => exists|j: int|
                    {
                        &&& 0 <= j < old(self)@.len()
                        &&& fits(#[trigger] old(self)@[j], size as int, align as int)
                        &&& (forall|k: int| 0 <= k < j
                            ==> !fits(#[trigger] old(self)@[k], size as int, align as int))
                        &&& addr == align_up(old(self)@[j].next as int, align as int)
                        &&& final(self)@ == old(self)@.update(
                            j,
                            heap_after_alloc(old(self)@[j], size as int, align as int),
                        )
                    },
                Err(_) => {
                    &&& final(self)@ == old(self)@
                    &&& forall|j: int| 0 <= j < old(self)@.len()
                        ==> !fits(#[trigger] old(self)@[j], size as int, align as int)
                },
            }),
    {
        let ghost pre = self@;
        let mut i: usize = 0;
        while i < self.heaps.len()
            invariant
                pre == old(self)@,
                self@ == pre,
                self.well_formed(),
                0 < align,
                i <= self@.len(),
                forall|k: int| 0 <= k < i
                    ==> !fits(#[trigger] old(self)@[k], size as int, align as int),
            decreases self@.len() - i,
        {
            let h = self.heaps[i];
            let rem = h.next % align;
            let pad = if rem == 0 { 0usize } else { align - rem };
            let end_room = h.start + h.size - h.next;
            if pad <= end_room && size <= end_room - pad {
                let addr = h.next + pad;
                let heap = Heap { start: h.start, size: h.size, next: addr + size };
                proof {
                    assert(h == old(self)@[i as int]);
                }
                self.heaps[i] = heap;
                proof {
                    assert(0 <= h.next % align < align) by (nonlinear_arith)
                        requires 0 < align && 0 <= h.next;
                    assert(addr == align_up(h.next as int, align as int));
                    assert(fits(#[trigger] old(self)@[i as int], size as int, align as int));
                    assert(heap == heap_after_alloc(old(self)@[i as int], size as int, align as int));
                    assert(self@ == old(self)@.update(
                        i as int,
                        heap_after_alloc(old(self)@[i as int], size as int, align as int),
                    ));
                }
                return Ok(addr);
            }
            proof {
                assert(0 <= h.next % align < align) by (nonlinear_arith)
                    requires 0 < align && 0 <= h.next;
                assert(!fits(old(self)@[i as int], size as int, align as int));
            }
            i = i + 1;
        }
        Err(AllocError)
    }
}

} // verus!
