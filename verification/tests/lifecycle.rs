//! The per-core enable/disable lifecycle, driven against simulated
//! register state.

use rvm_svm::debug::{operating_mode, DebugOprationMode};
use rvm_svm::percpu::{has_hardware_support, SvmPreCpuState};
use rvm_svm::svm::{
    disable_svm, enable_svm, is_enabled_svm, read_msr, set_vm_hsave_pa_msr, SvmHardware,
    MSR_EFER, MSR_IA32_PAT, MSR_VM_CR, MSR_VM_HSAVE_PA,
};
use rvm_svm::{init_ok, InitFlag, RvmError};

/// A core that supports SVM, with no firmware lock and the extension
/// off.
fn supported_core() -> SvmHardware {
    SvmHardware {
        cpuid_ecx: 0x4,
        efer: 0,
        vm_cr: 0,
        vm_hsave_pa: 0,
        pat: 0x0007_0406_0007_0406,
    }
}

#[test]
fn feature_bit_is_queried_not_assumed() {
    let mut hw = supported_core();
    assert!(has_hardware_support(&hw));
    hw.cpuid_ecx = !0x4;
    assert!(!has_hardware_support(&hw));
}

#[test]
fn enable_without_feature_support_reports_unsupported() {
    let mut hw = supported_core();
    hw.cpuid_ecx = 0;
    let before = hw;
    let mut percpu = SvmPreCpuState::new();
    assert_eq!(percpu.hardware_enable(&mut hw), Err(RvmError::Unsupported));
    assert_eq!(hw, before, "a failed enable must not touch any register");
}

#[test]
fn enable_while_already_enabled_reports_busy_and_mutates_nothing() {
    let mut hw = supported_core();
    hw.efer = 0x1000;
    let before = hw;
    let mut percpu = SvmPreCpuState::new();
    assert!(percpu.is_enabled(&hw));
    assert_eq!(percpu.hardware_enable(&mut hw), Err(RvmError::ResourceBusy));
    assert_eq!(hw, before, "a failed enable must not touch any register");
}

#[test]
fn enable_under_firmware_lock_reports_busy_and_mutates_nothing() {
    let mut hw = supported_core();
    hw.vm_cr = 0x10;
    let before = hw;
    let mut percpu = SvmPreCpuState::new();
    assert_eq!(percpu.hardware_enable(&mut hw), Err(RvmError::ResourceBusy));
    assert_eq!(hw, before, "a failed enable must not touch any register");
}

#[test]
fn enable_then_disable_end_to_end() {
    let mut hw = supported_core();
    let mut percpu = SvmPreCpuState::new();
    assert!(!percpu.is_enabled(&hw));

    assert_eq!(percpu.hardware_enable(&mut hw), Ok(()));
    assert!(percpu.is_enabled(&hw));
    assert!(is_enabled_svm(&hw));
    assert_eq!(hw.efer, 0x1000);

    assert_eq!(percpu.hardware_disable(&mut hw), Ok(()));
    assert!(!percpu.is_enabled(&hw));
    assert!(!is_enabled_svm(&hw));
    assert_eq!(hw.efer, 0);
}

#[test]
fn enable_and_disable_preserve_unrelated_efer_bits() {
    let mut hw = supported_core();
    hw.efer = 0x0501;
    enable_svm(&mut hw);
    assert_eq!(hw.efer, 0x1501);
    disable_svm(&mut hw);
    assert_eq!(hw.efer, 0x0501);
}

#[test]
fn read_msr_reflects_each_modeled_register() {
    let hw = SvmHardware {
        cpuid_ecx: 0x4,
        efer: 0x1000,
        vm_cr: 0x10,
        vm_hsave_pa: 0x8000,
        pat: 0x0007_0406_0007_0406,
    };
    assert_eq!(read_msr(&hw, MSR_EFER), 0x1000);
    assert_eq!(read_msr(&hw, MSR_VM_CR), 0x10);
    assert_eq!(read_msr(&hw, MSR_VM_HSAVE_PA), 0x8000);
    assert_eq!(read_msr(&hw, MSR_IA32_PAT), 0x0007_0406_0007_0406);
}

#[test]
fn host_save_address_registration_touches_only_that_register() {
    let mut hw = supported_core();
    set_vm_hsave_pa_msr(&mut hw, 0x0012_3000);
    assert_eq!(hw.vm_hsave_pa, 0x0012_3000);
    assert_eq!(hw.efer, 0);
    assert_eq!(hw.vm_cr, 0);
    assert_eq!(hw.cpuid_ecx, 0x4);
}

#[test]
fn operating_mode_classification() {
    assert_eq!(operating_mode(0x1, 0x0), DebugOprationMode::ProtectedMode);
    assert_eq!(operating_mode(0x31, 0x1), DebugOprationMode::ProtectedMode);
    assert_eq!(operating_mode(0x0, 0x1), DebugOprationMode::LongMode);
    assert_eq!(operating_mode(0x0, 0x0), DebugOprationMode::RealMode);
    assert_eq!(operating_mode(0x30, 0x1000), DebugOprationMode::RealMode);
}

#[test]
fn init_flag_rises_once_and_stays() {
    let mut flag = InitFlag::new();
    assert!(!init_ok(&flag));
    flag.complete();
    assert!(init_ok(&flag));
    flag.complete();
    assert!(init_ok(&flag));
}
