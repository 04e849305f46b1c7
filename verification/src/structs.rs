//! The owning region that binds one physical frame's lifetime to the
//! control block living in it.

use vstd::prelude::*;

use crate::frame::{FrameAllocator, PhysFrame};
use crate::layout::PAGE_SIZE;
use crate::vmcb::Vmcb;
use crate::{RvmError, RvmResult};

verus! {

/// One control-block region: a physical frame together with the
/// Control Area and State-Save Area it holds. The frame's physical
/// address is the operand the hardware entry instruction takes.
#[derive(Clone, Copy, Debug)]
pub struct SvmRegion {
    /// The exclusively owned frame the control block lives in.
    pub frame: PhysFrame,
    /// The control block held in the frame.
    pub vmcb: Vmcb,
}

impl SvmRegion {
    /// The frame is a valid page and the control block's reserved bit
    /// ranges are zero.
    pub open spec fn wf(self) -> bool {
        &&& self.frame.wf()
        &&& self.vmcb.wf()
    }

    /// Allocates a zero-filled frame and takes ownership of the
    /// all-zero control block in it; fails with `OutOfMemory` when the
    /// allocator is exhausted, leaving the allocator unchanged.
    pub fn new(alloc: &mut FrameAllocator) -> (r: RvmResult<SvmRegion>)
        requires
            old(alloc).wf(),
        ensures
            final(alloc).wf(),
            old(alloc).spec_has_room(1) ==> (r matches Ok(region) && region.wf()
                && region.vmcb.is_cleared() && region.frame.spec_start_paddr() == old(
                alloc,
            ).spec_next() && final(alloc).spec_next() == old(alloc).spec_next() + PAGE_SIZE
                && final(alloc).spec_end() == old(alloc).spec_end()),
            !old(alloc).spec_has_room(1) ==> (r == Err::<SvmRegion, RvmError>(
                RvmError::OutOfMemory,
            ) && *final(alloc) == *old(alloc)),
    {
        let frame = match PhysFrame::alloc_zero(alloc) {
            Ok(frame) => frame,
            Err(e) => {
                return Err(e);
            },
        };
        Ok(SvmRegion { frame, vmcb: Vmcb::new() })
    }

    /// The physical address of the region's frame.
    pub fn phys_addr(&self) -> (r: usize)
        ensures
            r == self.frame.spec_start_paddr(),
    {
        self.frame.start_paddr()
    }
}

} // verus!
