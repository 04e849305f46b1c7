//! Physical frames and the allocator collaborator that supplies them.
//!
//! The allocator is modeled as a bump allocator over a page-aligned
//! physical region: each allocation hands out the next page and never
//! hands the same page out twice, so every frame is exclusively owned
//! by whoever received it. The frames arrive zero-filled; their typed
//! contents are modeled by the owning structures.

use vstd::prelude::*;

use crate::layout::PAGE_SIZE;
use crate::{RvmError, RvmResult};

verus! {

/// An exclusively owned, page-aligned, zero-filled block of physical
/// memory.
#[derive(Clone, Copy, Debug, PartialEq, Eq, Structural)]
pub struct PhysFrame {
    start_paddr: usize,
}

/// The physical region a [`FrameAllocator`] hands pages out of.
#[derive(Clone, Copy, Debug, PartialEq, Eq, Structural)]
pub struct FrameAllocator {
    next: usize,
    end: usize,
}

impl PhysFrame {
    /// The physical address the frame starts at.
    pub closed spec fn spec_start_paddr(self) -> usize {
        self.start_paddr
    }

    /// The frame is page-aligned and does not start at the null page.
    pub open spec fn wf(self) -> bool {
        &&& self.spec_start_paddr() % PAGE_SIZE == 0
        &&& self.spec_start_paddr() > 0
    }

    /// The physical address the frame starts at, used as the operand
    /// of the hardware entry instruction.
    pub fn start_paddr(&self) -> (r: usize)
        ensures
            r == self.spec_start_paddr(),
    {
        self.start_paddr
    }

    /// Takes the next zero-filled frame from the allocator; fails with
    /// `OutOfMemory` when the region is exhausted, leaving the
    /// allocator unchanged.
    pub fn alloc_zero(alloc: &mut FrameAllocator) -> (r: RvmResult<PhysFrame>)
        requires
            old(alloc).wf(),
        ensures
            final(alloc).wf(),
            old(alloc).spec_has_room(1) ==> (r matches Ok(frame) && frame.wf()
                && frame.spec_start_paddr() == old(alloc).spec_next() && final(alloc).spec_next()
                == old(alloc).spec_next() + PAGE_SIZE && final(alloc).spec_end() == old(
                alloc,
            ).spec_end()),
            !old(alloc).spec_has_room(1) ==> (r == Err::<PhysFrame, RvmError>(
                RvmError::OutOfMemory,
            ) && *final(alloc) == *old(alloc)),
    {
        alloc.take_page()
    }
}

impl FrameAllocator {
    /// The address of the next page to hand out.
    pub closed spec fn spec_next(self) -> usize {
        self.next
    }

    /// The end of the region pages are handed out of.
    pub closed spec fn spec_end(self) -> usize {
        self.end
    }

    /// The region bounds are page-aligned, above the null page, and
    /// ordered.
    pub open spec fn wf(self) -> bool {
        &&& self.spec_next() % PAGE_SIZE == 0
        &&& self.spec_end() % PAGE_SIZE == 0
        &&& self.spec_next() > 0
        &&& self.spec_next() <= self.spec_end()
    }

    /// Whether `n` more pages fit in the region.
    pub open spec fn spec_has_room(self, n: usize) -> bool {
        self.spec_next() + n * PAGE_SIZE <= self.spec_end()
    }

    /// An allocator over the `frames`-page region starting at `start`.
    pub fn new(start: usize, frames: usize) -> (r: Self)
        requires
            start % PAGE_SIZE == 0,
            start > 0,
            start + frames * PAGE_SIZE <= usize::MAX,
        ensures
            r.wf(),
            r.spec_next() == start,
            r.spec_end() == start + frames * PAGE_SIZE,
            r.spec_has_room(frames),
    {
        FrameAllocator { next: start, end: start + frames * PAGE_SIZE }
    }

    /// Hands out the next page of the region, or fails with
    /// `OutOfMemory` when none is left.
    fn take_page(&mut self) -> (r: RvmResult<PhysFrame>)
        requires
            old(self).wf(),
        ensures
            final(self).wf(),
            old(self).spec_has_room(1) ==> (r matches Ok(frame) && frame.wf()
                && frame.spec_start_paddr() == old(self).spec_next() && final(self).spec_next()
                == old(self).spec_next() + PAGE_SIZE && final(self).spec_end() == old(
                self,
            ).spec_end()),
            !old(self).spec_has_room(1) ==> (r == Err::<PhysFrame, RvmError>(RvmError::OutOfMemory)
                && *final(self) == *old(self)),
    {
        if self.end - self.next >= PAGE_SIZE {
            let frame = PhysFrame { start_paddr: self.next };
            self.next = self.next + PAGE_SIZE;
            Ok(frame)
        } else {
            Err(RvmError::OutOfMemory)
        }
    }
}

} // verus!
