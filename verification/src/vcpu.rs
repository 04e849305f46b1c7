//! The virtual CPU: one control-block region plus the host-state save
//! frame, with the guest-state initialization algorithm and the entry
//! preparation.
//!
//! Ownership note: the hardware only requires that a host-save
//! physical address be registered before entry, not which component
//! owns that frame; here the vCPU owns it, so a vCPU is self-contained
//! and per-core state stays empty.

use vstd::prelude::*;

use crate::fields::{lemma_mask64_values, spec_get_bits64, spec_set_bits64};
use crate::frame::{FrameAllocator, PhysFrame};
use crate::layout::PAGE_SIZE;
use crate::percpu::SvmPreCpuState;
use crate::structs::SvmRegion;
use crate::svm::{read_msr, set_vm_hsave_pa_msr, SvmHardware, MSR_IA32_PAT};
use crate::vmcb::{VmcbControlArea, VmcbRegister, VmcbStateSaveArea};
use crate::{RvmError, RvmResult};

verus! {

/// CR0.ET, the extension-type bit of the reset configuration.
pub const CR0_EXTENSION_TYPE: u64 = 0x10;

/// CR0.NE, the numeric-error bit of the reset configuration.
pub const CR0_NUMERIC_ERROR: u64 = 0x20;

/// The architectural reset value of the debug-control register DR7.
pub const DR7_RESET: u64 = 0x400;

/// The single mandatory reserved bit of the flags register.
pub const RFLAGS_RESERVED: u64 = 0x2;

/// The reset value of the six general segment descriptor caches: a
/// flat, fully accessible 16-bit real-mode-compatible descriptor with
/// the base near zero, the maximal 16-bit limit and permissive access
/// rights.
pub open spec fn spec_flat_segment() -> VmcbRegister {
    VmcbRegister { selector: 0xffff, attrib: 0xffff, limit: 0xffff, base: 0x93 }
}

/// The architecturally defined reset state `setup` gives the guest:
/// flat general segments, distinct task-register and local-table
/// bases, maximal descriptor-table limits, the minimal CR0
/// configuration, cleared page-table root, the architectural DR7
/// default, zeroed instruction and stack pointers, the mandatory flags
/// bit, the physical core's page-attribute table mirrored in, a
/// cleared EFER, and every remaining field zero.
pub open spec fn is_reset_state(s: VmcbStateSaveArea, pat: u64) -> bool {
    &&& s.es == spec_flat_segment()
    &&& s.cs == spec_flat_segment()
    &&& s.ss == spec_flat_segment()
    &&& s.ds == spec_flat_segment()
    &&& s.fs == spec_flat_segment()
    &&& s.gs == spec_flat_segment()
    &&& s.tr == (VmcbRegister { selector: 0, attrib: 0, limit: 0, base: 0x8b })
    &&& s.ldtr == (VmcbRegister { selector: 0, attrib: 0, limit: 0, base: 0x83 })
    &&& s.gdtr == (VmcbRegister { selector: 0, attrib: 0, limit: 0xffff, base: 0 })
    &&& s.idtr == (VmcbRegister { selector: 0, attrib: 0, limit: 0xffff, base: 0 })
    &&& s.cpl == 0
    &&& s.efer == 0
    &&& s.perf_ctl0 == 0
    &&& s.perf_ctr0 == 0
    &&& s.perf_ctl1 == 0
    &&& s.perf_ctr1 == 0
    &&& s.perf_ctl2 == 0
    &&& s.perf_ctr2 == 0
    &&& s.perf_ctl3 == 0
    &&& s.perf_ctr3 == 0
    &&& s.perf_ctl4 == 0
    &&& s.perf_ctr4 == 0
    &&& s.perf_ctl5 == 0
    &&& s.perf_ctr5 == 0
    &&& s.cr4 == 0
    &&& s.cr3 == 0
    &&& s.cr0 == CR0_EXTENSION_TYPE | CR0_NUMERIC_ERROR
    &&& s.dr7 == DR7_RESET
    &&& s.dr6 == 0
    &&& s.rflags == RFLAGS_RESERVED
    &&& s.rip == 0
    &&& s.instr_retired_ctr == 0
    &&& s.perf_ctr_global_sts == 0
    &&& s.perf_ctr_global_ctl == 0
    &&& s.rsp == 0
    &&& s.s_cet == 0
    &&& s.ssp == 0
    &&& s.isst_addr == 0
    &&& s.rax == 0
    &&& s.star == 0
    &&& s.lstar == 0
    &&& s.cstar == 0
    &&& s.sfmask == 0
    &&& s.kernel_gs_base == 0
    &&& s.sysenter_cs == 0
    &&& s.sysenter_esp == 0
    &&& s.sysenter_eip == 0
    &&& s.cr2 == 0
    &&& s.g_pat == pat
    &&& s.dbgctl == 0
    &&& s.br_from == 0
    &&& s.br_to == 0
    &&& s.lastexcpfrom == 0
    &&& s.lastexcpto == 0
    &&& s.dbgextnctl == 0
    &&& s.spec_ctrl == 0
    &&& (forall|i: int| 0 <= i < 256 ==> s.lbr_stack@[i] == 0)
    &&& s.lbr_select == 0
    &&& s.ibs_fetch_ctl == 0
    &&& s.ibs_fetch_linaddr == 0
    &&& s.ibs_op_ctl == 0
    &&& s.ibs_op_rip == 0
    &&& s.ibs_op_data == 0
    &&& s.ibs_op_data2 == 0
    &&& s.ibs_op_data3 == 0
    &&& s.ibs_dc_linaddr == 0
    &&& s.bp_ibstgt_rip == 0
    &&& s.ic_ibst_extd_ctl == 0
}

/// The Control Area `setup` leaves behind: everything still cleared
/// except the virtual-APIC base, and every reserved bit range zero.
pub open spec fn is_reset_control_area(c: VmcbControlArea) -> bool {
    &&& c.wf()
    &&& c.avic_control_flags.spec_bits() == spec_set_bits64(0u64, 0, 52, 1)
    &&& spec_get_bits64(c.avic_control_flags.spec_bits(), 0, 52) == 1
    &&& c.intercept_cr_read == 0
    &&& c.intercept_cr_write == 0
    &&& c.intercept_dr_read == 0
    &&& c.intercept_dr_write == 0
    &&& c.intercept_exception == 0
    &&& c.intercept_vector3.spec_bits() == 0
    &&& c.intercept_vector4.spec_bits() == 0
    &&& c.intercept_vector5.spec_bits() == 0
    &&& c.pause_filter_threshold == 0
    &&& c.pause_filter_count == 0
    &&& c.iopm_base_pa == 0
    &&& c.msrpm_base_pa == 0
    &&& c.tsc_offset == 0
    &&& c.guest.spec_bits() == 0
    &&& c.vm_interrupt_control_flags.spec_bits() == 0
    &&& c.vm_shadow_interrupt.spec_bits() == 0
    &&& c.exit.spec_exit_code() == 0
    &&& c.exit.spec_exit_info_1() == 0
    &&& c.exit.spec_exit_info_2() == 0
    &&& c.exit.spec_exit_init_info() == 0
    &&& c.nested_paging_flags.spec_bits() == 0
    &&& c.ghcb_pa == 0
    &&& c.event_injection == 0
    &&& c.n_cr3 == 0
    &&& c.lbr_virtualization_flags.spec_bits() == 0
    &&& c.clean_bits.spec_bits() == 0
    &&& c.n_rip == 0
    &&& c.instruction_fetch_count.is_cleared()
    &&& c.avic_backing_page_pointer.spec_bits() == 0
    &&& c.avic_logical_backing_page_pointer.spec_bits() == 0
    &&& c.avic_physical_backing_page_pointer.spec_bits() == 0
    &&& c.vmsa_pointer.spec_bits() == 0
    &&& c.vmgexit_rax == 0
    &&& c.vmgexit_cpl == 0
    &&& c.bus_lock_threshold_counter == 0
    &&& (forall|i: int| 0 <= i < 5 ==> c.update_irr@[i] == 0)
    &&& c.sev_features_mask.spec_bits() == 0
    &&& c.guest_sev_features.spec_bits() == 0
    &&& (forall|i: int| 0 <= i < 32 ==> c.requested_irr@[i] == 0)
}

/// One guest's virtual CPU: the control-block region it runs from and
/// the frame the hardware saves host state into across entries.
#[derive(Clone, Copy, Debug)]
pub struct SvmVcpu {
    /// The control-block region of this guest context.
    pub vmcb: SvmRegion,
    /// The host-state save frame registered before entry.
    pub host_state: PhysFrame,
}

impl SvmVcpu {
    /// Both frames are valid pages, they are distinct, and the control
    /// block's reserved bit ranges are zero.
    pub open spec fn wf(self) -> bool {
        &&& self.vmcb.wf()
        &&& self.host_state.wf()
        &&& self.vmcb.frame.spec_start_paddr() != self.host_state.spec_start_paddr()
    }

    /// Whether the control block holds the defined guest reset state
    /// for a core whose page-attribute table reads `pat`.
    pub open spec fn is_setup(self, pat: u64) -> bool {
        &&& is_reset_control_area(self.vmcb.vmcb.control_area)
        &&& is_reset_state(self.vmcb.vmcb.state_save_area, pat)
    }

    /// Creates a vCPU for one guest: allocates the control-block
    /// region and the host-state frame, then initializes the guest to
    /// the defined reset state. Fails with `OutOfMemory`, propagated
    /// from the allocator, when fewer than two frames are left.
    pub fn new(_percpu: &SvmPreCpuState, alloc: &mut FrameAllocator, hw: &SvmHardware) -> (r:
        RvmResult<SvmVcpu>)
        requires
            old(alloc).wf(),
        ensures
            final(alloc).wf(),
            old(alloc).spec_has_room(2) ==> (r matches Ok(vcpu) && vcpu.wf() && vcpu.is_setup(
                hw.pat,
            ) && vcpu.vmcb.frame.spec_start_paddr() == old(alloc).spec_next()
                && vcpu.host_state.spec_start_paddr() == old(alloc).spec_next() + PAGE_SIZE
                && final(alloc).spec_next() == old(alloc).spec_next() + 2 * PAGE_SIZE),
            !old(alloc).spec_has_room(2) ==> r == Err::<SvmVcpu, RvmError>(RvmError::OutOfMemory),
            !old(alloc).spec_has_room(1) ==> *final(alloc) == *old(alloc),
            old(alloc).spec_has_room(1) && !old(alloc).spec_has_room(2)
                ==> final(alloc).spec_next() == old(alloc).spec_next() + PAGE_SIZE,
    {
        let vmcb = match SvmRegion::new(alloc) {
            Ok(region) => region,
            Err(e) => {
                return Err(e);
            },
        };
        let host_state = match PhysFrame::alloc_zero(alloc) {
            Ok(frame) => frame,
            Err(e) => {
                return Err(e);
            },
        };
        let mut vcpu = SvmVcpu { vmcb, host_state };
        vcpu.setup_vmcb(hw);
        Ok(vcpu)
    }

    /// Prepares entry into the guest: registers the host-state save
    /// address with the core and yields the control block's physical
    /// address, the operand of the hardware entry instruction.
    ///
    /// The entry itself is privileged and does not return until the
    /// hardware delivers a trap; the caller issues it with the
    /// returned address and afterwards reads the exit outcome from the
    /// Control Area's exit fields, which are authoritative from that
    /// point on.
    pub fn run(&mut self, hw: &mut SvmHardware) -> (vmcb_paddr: usize)
        ensures
            *final(self) == *old(self),
            vmcb_paddr == old(self).vmcb.frame.spec_start_paddr(),
            final(hw).vm_hsave_pa == old(self).host_state.spec_start_paddr() as u64,
            final(hw).cpuid_ecx == old(hw).cpuid_ecx,
            final(hw).efer == old(hw).efer,
            final(hw).vm_cr == old(hw).vm_cr,
            final(hw).pat == old(hw).pat,
    {
        let vm_hsave_pa = self.host_state.start_paddr();
        set_vm_hsave_pa_msr(hw, vm_hsave_pa as u64);
        self.vmcb.phys_addr()
    }

    /// Initializes both areas of the control block to the defined
    /// guest reset state.
    fn setup_vmcb(&mut self, hw: &SvmHardware)
        requires
            old(self).vmcb.vmcb.is_cleared(),
            old(self).vmcb.vmcb.wf(),
        ensures
            final(self).vmcb.vmcb.control_area.wf(),
            is_reset_control_area(final(self).vmcb.vmcb.control_area),
            is_reset_state(final(self).vmcb.vmcb.state_save_area, hw.pat),
            final(self).vmcb.frame == old(self).vmcb.frame,
            final(self).host_state == old(self).host_state,
    {
        self.setup_vmcb_control_area();
        self.setup_vmcb_state_save_area(hw);
    }

    /// Initializes the Control Area: points the virtual-APIC base at
    /// its placeholder address and leaves every other field cleared.
    fn setup_vmcb_control_area(&mut self)
        requires
            old(self).vmcb.vmcb.control_area.is_cleared(),
            old(self).vmcb.vmcb.control_area.wf(),
        ensures
            is_reset_control_area(final(self).vmcb.vmcb.control_area),
            final(self).vmcb.vmcb.state_save_area == old(self).vmcb.vmcb.state_save_area,
            final(self).vmcb.frame == old(self).vmcb.frame,
            final(self).host_state == old(self).host_state,
    {
        proof {
            lemma_mask64_values();
        }
        self.vmcb.vmcb.control_area.avic_control_flags.set_apic_bar(1);
    }

    /// Initializes the State-Save Area to the architecturally defined
    /// reset values, mirroring the page-attribute table from the
    /// physical core rather than recomputing it.
    fn setup_vmcb_state_save_area(&mut self, hw: &SvmHardware)
        requires
            old(self).vmcb.vmcb.state_save_area.is_cleared(),
        ensures
            is_reset_state(final(self).vmcb.vmcb.state_save_area, hw.pat),
            final(self).vmcb.vmcb.control_area == old(self).vmcb.vmcb.control_area,
            final(self).vmcb.frame == old(self).vmcb.frame,
            final(self).host_state == old(self).host_state,
    {
        self.vmcb.vmcb.state_save_area.cr0 = CR0_EXTENSION_TYPE | CR0_NUMERIC_ERROR;

        let flat = VmcbRegister { selector: 0xffff, attrib: 0xffff, limit: 0xffff, base: 0x93 };
        self.vmcb.vmcb.state_save_area.es = flat;
        self.vmcb.vmcb.state_save_area.cs = flat;
        self.vmcb.vmcb.state_save_area.ss = flat;
        self.vmcb.vmcb.state_save_area.ds = flat;
        self.vmcb.vmcb.state_save_area.fs = flat;
        self.vmcb.vmcb.state_save_area.gs = flat;

        self.vmcb.vmcb.state_save_area.tr.set_base(0x8b);
        self.vmcb.vmcb.state_save_area.ldtr.set_base(0x83);

        self.vmcb.vmcb.state_save_area.gdtr.set_limit(0xffff);
        self.vmcb.vmcb.state_save_area.idtr.set_limit(0xffff);

        self.vmcb.vmcb.state_save_area.cr3 = 0;
        self.vmcb.vmcb.state_save_area.dr7 = DR7_RESET;
        self.vmcb.vmcb.state_save_area.rsp = 0;
        self.vmcb.vmcb.state_save_area.rip = 0;
        self.vmcb.vmcb.state_save_area.rflags = RFLAGS_RESERVED;
        self.vmcb.vmcb.state_save_area.dbgextnctl = 0;

        self.vmcb.vmcb.state_save_area.sysenter_esp = 0;
        self.vmcb.vmcb.state_save_area.sysenter_eip = 0;
        self.vmcb.vmcb.state_save_area.sysenter_cs = 0;

        self.vmcb.vmcb.state_save_area.g_pat = read_msr(hw, MSR_IA32_PAT);
        self.vmcb.vmcb.state_save_area.efer = 0;
    }
}

} // verus!
