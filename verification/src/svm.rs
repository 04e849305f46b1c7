//! Model of the privileged per-core registers that the SVM lifecycle
//! reads and writes, together with the operations the hardware defines
//! on them.
//!
//! A running hypervisor keeps an [`SvmHardware`] value in lock-step with
//! the physical core: the privileged caller fills it from `cpuid` and
//! `rdmsr` before a decision and applies every change this module makes
//! with `wrmsr` afterwards. A test supplies simulated register values
//! instead; the decision code is identical in both cases.

use vstd::prelude::*;

verus! {

/// Extended-feature-enable register; its SVME bit turns the extension on.
pub const MSR_EFER: u32 = 0xC000_0080;

/// Vendor control register; firmware may set its SVMDIS lock bit.
pub const MSR_VM_CR: u32 = 0xC001_0114;

/// Physical address of the host-state save area, registered before entry.
pub const MSR_VM_HSAVE_PA: u32 = 0xC001_0115;

/// Page-attribute table of the physical core, mirrored into the guest.
pub const MSR_IA32_PAT: u32 = 0x277;

/// EFER.SVME (bit 12): the extension is enabled while this bit is set.
pub const EFER_SVME: u64 = 0x1000;

/// VM_CR.SVMDIS (bit 4): firmware forbids enabling while this bit is set.
pub const VM_CR_SVMDIS: u64 = 0x10;

/// CPUID leaf `0x8000_0001` ECX bit 2: the processor supports SVM.
pub const CPUID_ECX_SVM: u32 = 0x4;

/// The per-core privileged register state visible to this crate.
///
/// Only the registers that the SVM lifecycle touches are modeled; each
/// field mirrors one physical register of the core the caller runs on.
#[derive(Clone, Copy, Debug, PartialEq, Eq, Structural)]
pub struct SvmHardware {
    /// ECX of CPUID leaf `0x8000_0001`, the extended-feature bits.
    pub cpuid_ecx: u32,
    /// The extended-feature-enable register (`MSR_EFER`).
    pub efer: u64,
    /// The vendor control register (`MSR_VM_CR`).
    pub vm_cr: u64,
    /// The host-save-area address register (`MSR_VM_HSAVE_PA`).
    pub vm_hsave_pa: u64,
    /// The page-attribute table (`MSR_IA32_PAT`).
    pub pat: u64,
}

/// Whether the modeled processor reports SVM support.
pub open spec fn spec_has_support(hw: SvmHardware) -> bool {
    hw.cpuid_ecx & CPUID_ECX_SVM != 0
}

/// Whether the extension is enabled in the modeled EFER register.
pub open spec fn spec_svm_enabled(hw: SvmHardware) -> bool {
    hw.efer & EFER_SVME != 0
}

/// Whether firmware locked the extension off in the modeled VM_CR register.
pub open spec fn spec_svm_locked(hw: SvmHardware) -> bool {
    hw.vm_cr & VM_CR_SVMDIS != 0
}

/// Whether an MSR index is one of the registers this model holds.
pub open spec fn spec_modeled_msr(msr: u32) -> bool {
    msr == MSR_EFER || msr == MSR_VM_CR || msr == MSR_VM_HSAVE_PA || msr == MSR_IA32_PAT
}

/// The value the model holds for a modeled MSR index.
pub open spec fn spec_msr_value(hw: SvmHardware, msr: u32) -> u64 {
    if msr == MSR_EFER {
        hw.efer
    } else if msr == MSR_VM_CR {
        hw.vm_cr
    } else if msr == MSR_VM_HSAVE_PA {
        hw.vm_hsave_pa
    } else {
        hw.pat
    }
}

/// Reads a model-specific register from the register model.
pub fn read_msr(hw: &SvmHardware, msr: u32) -> (r: u64)
    requires
        spec_modeled_msr(msr),
    ensures
        r == spec_msr_value(*hw, msr),
{
    if msr == MSR_EFER {
        hw.efer
    } else if msr == MSR_VM_CR {
        hw.vm_cr
    } else if msr == MSR_VM_HSAVE_PA {
        hw.vm_hsave_pa
    } else {
        hw.pat
    }
}

/// Whether the extension is currently enabled, read from the live EFER
/// value rather than any cached flag: hardware state can change
/// out-of-band, so the register is authoritative.
pub fn is_enabled_svm(hw: &SvmHardware) -> (r: bool)
    ensures
        r == spec_svm_enabled(*hw),
{
    read_msr(hw, MSR_EFER) & EFER_SVME != 0
}

/// Registers the physical address of the host-state save area.
pub fn set_vm_hsave_pa_msr(hw: &mut SvmHardware, pa: u64)
    ensures
        final(hw).vm_hsave_pa == pa,
        final(hw).cpuid_ecx == old(hw).cpuid_ecx,
        final(hw).efer == old(hw).efer,
        final(hw).vm_cr == old(hw).vm_cr,
        final(hw).pat == old(hw).pat,
{
    hw.vm_hsave_pa = pa;
}

/// Sets EFER.SVME by a read-modify-write of the register model, leaving
/// every other register and every other EFER bit unchanged.
pub fn enable_svm(hw: &mut SvmHardware)
    ensures
        final(hw).efer == old(hw).efer | EFER_SVME,
        spec_svm_enabled(*final(hw)),
        final(hw).cpuid_ecx == old(hw).cpuid_ecx,
        final(hw).vm_cr == old(hw).vm_cr,
        final(hw).vm_hsave_pa == old(hw).vm_hsave_pa,
        final(hw).pat == old(hw).pat,
{
    let efer = read_msr(hw, MSR_EFER);
    hw.efer = efer | EFER_SVME;
    proof {
        let e = old(hw).efer;
        assert((e | EFER_SVME) & EFER_SVME != 0) by (bit_vector);
    }
}

/// Clears EFER.SVME by a read-modify-write of the register model, leaving
/// every other register and every other EFER bit unchanged.
pub fn disable_svm(hw: &mut SvmHardware)
    ensures
        final(hw).efer == old(hw).efer & !EFER_SVME,
        !spec_svm_enabled(*final(hw)),
        final(hw).cpuid_ecx == old(hw).cpuid_ecx,
        final(hw).vm_cr == old(hw).vm_cr,
        final(hw).vm_hsave_pa == old(hw).vm_hsave_pa,
        final(hw).pat == old(hw).pat,
{
    let efer = read_msr(hw, MSR_EFER);
    hw.efer = efer & !EFER_SVME;
    proof {
        let e = old(hw).efer;
        assert((e & !EFER_SVME) & EFER_SVME == 0) by (bit_vector);
    }
}

} // verus!
