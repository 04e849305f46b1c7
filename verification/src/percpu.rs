//! Per-core enable/disable lifecycle of the virtualization extension.
//!
//! Both operations must run on the physical core whose registers the
//! supplied model mirrors; core affinity is the caller's responsibility.
//! Every precondition of `hardware_enable` is checked before any register
//! is mutated, so a failed enable leaves the core exactly as it was.

use vstd::prelude::*;

use crate::svm::{
    enable_svm, disable_svm, is_enabled_svm, read_msr, spec_has_support, spec_svm_enabled,
    spec_svm_locked, SvmHardware, CPUID_ECX_SVM, EFER_SVME, MSR_VM_CR, VM_CR_SVMDIS,
};
use crate::{RvmError, RvmResult};

verus! {

/// Whether the processor reports the SVM feature bit in its extended
/// CPUID leaf. The feature is queried, never assumed.
pub fn has_hardware_support(hw: &SvmHardware) -> (r: bool)
    ensures
        r == spec_has_support(*hw),
{
    hw.cpuid_ecx & CPUID_ECX_SVM != 0
}

/// Per-core lifecycle handle for the virtualization extension.
///
/// It holds no guest data and caches no flag: whether the extension is
/// enabled is always derived from the live register model.
pub struct SvmPreCpuState {}

impl SvmPreCpuState {
    /// A handle for the current physical core.
    pub fn new() -> (r: Self) {
        SvmPreCpuState {}
    }

    /// Whether the extension is enabled on this core, per the live
    /// EFER register value.
    pub fn is_enabled(&self, hw: &SvmHardware) -> (r: bool)
        ensures
            r == spec_svm_enabled(*hw),
    {
        is_enabled_svm(hw)
    }

    /// Enables the virtualization extension on this core.
    ///
    /// The sequence checks, in order: the CPUID feature bit
    /// (`Unsupported` if absent), the live EFER.SVME bit (`ResourceBusy`
    /// if already set), and the firmware lock bit in VM_CR
    /// (`ResourceBusy` if set). Only when all three pass is EFER.SVME
    /// set by read-modify-write; every failure leaves the registers
    /// untouched.
    pub fn hardware_enable(&mut self, hw: &mut SvmHardware) -> (r: RvmResult)
        ensures
            (r is Ok) <==> spec_has_support(*old(hw)) && !spec_svm_enabled(*old(hw))
                && !spec_svm_locked(*old(hw)),
            !spec_has_support(*old(hw)) ==> r == Err::<(), RvmError>(RvmError::Unsupported),
            spec_has_support(*old(hw)) && (spec_svm_enabled(*old(hw)) || spec_svm_locked(
                *old(hw),
            )) ==> r == Err::<(), RvmError>(RvmError::ResourceBusy),
            (r is Err) ==> *final(hw) == *old(hw),
            (r is Ok) ==> *final(hw) == (SvmHardware {
                efer: old(hw).efer | EFER_SVME,
                ..*old(hw)
            }),
            (r is Ok) ==> spec_svm_enabled(*final(hw)),
    {
        if !has_hardware_support(hw) {
            return Err(RvmError::Unsupported);
        }
        if self.is_enabled(hw) {
            return Err(RvmError::ResourceBusy);
        }
        let vm_cr = read_msr(hw, MSR_VM_CR);
        if vm_cr & VM_CR_SVMDIS != 0 {
            return Err(RvmError::ResourceBusy);
        }
        enable_svm(hw);
        Ok(())
    }

    /// Disables the virtualization extension on this core by clearing
    /// EFER.SVME unconditionally; hardware defines no failure mode for
    /// disabling, so this always succeeds.
    pub fn hardware_disable(&mut self, hw: &mut SvmHardware) -> (r: RvmResult)
        ensures
            (r is Ok),
            *final(hw) == (SvmHardware { efer: old(hw).efer & !EFER_SVME, ..*old(hw) }),
            !spec_svm_enabled(*final(hw)),
    {
        disable_svm(hw);
        Ok(())
    }
}

} // verus!
