//! The single-region bump allocator the runtime started from: one memory
//! region, one watermark, no reclamation.  The multi-region first-fit
//! allocator supersedes it, but it remains the simplest allocation scheme
//! the runtime can be configured with.

use vstd::prelude::*;
use crate::allocator::AllocError;

verus! {

/// One region `[start, end)` and the watermark of what has been handed
/// out; freed memory is never reclaimed.
#[derive(Clone, Copy, Debug, PartialEq, Eq, Structural)]
pub struct BumpAllocator {
    pub start: usize,
    pub end: usize,
    pub next: usize,
}

impl BumpAllocator {
    pub fn new() -> (r: Self)
        ensures
            r == (BumpAllocator { start: 0usize, end: 0usize, next: 0usize }),
    {
        BumpAllocator { start: 0, end: 0, next: 0 }
    }

    /// Point the allocator at its region; the watermark starts at the
    /// bottom.
    pub fn set_memory_region(&mut self, start: usize, end: usize)
        ensures
            *final(self) == (BumpAllocator { start, end, next: start }),
    {
        self.start = start;
        self.end = end;
        self.next = start;
    }

    /// Hand out the next `size` bytes: the watermark always advances, and
    /// the request succeeds exactly when it stays inside the region.
    pub fn allocate(&mut self, size: usize) -> (r: Result<usize, AllocError>)
        requires
            old(self).next + size <= usize::MAX,
        ensures
            final(self).start == old(self).start,
            final(self).end == old(self).end,
            final(self).next == old(self).next + size,
            final(self).next <= final(self).end ==> r == Ok::<usize, AllocError>(old(self).next),
            final(self).next > final(self).end ==> r == Err::<usize, AllocError>(AllocError),
    {
        let addr = self.next;
        self.next = self.next + size;

        if self.next <= self.end {
            Ok(addr)
        } else {
            Err(AllocError)
        }
    }

    /// Deallocation is not supported: the region is never reclaimed, and
    /// the shim only logs the attempt.
    pub fn deallocate(&mut self, address: usize) -> (r: usize)
        ensures
            *final(self) == *old(self),
            r == address,
    {
        address
    }
}

} // verus!
