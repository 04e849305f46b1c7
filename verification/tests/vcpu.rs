//! vCPU construction, the guest reset state after `setup`, frame
//! ownership, and entry preparation.

use rvm_svm::frame::{FrameAllocator, PhysFrame};
use rvm_svm::percpu::SvmPreCpuState;
use rvm_svm::structs::SvmRegion;
use rvm_svm::svm::SvmHardware;
use rvm_svm::vcpu::SvmVcpu;
use rvm_svm::RvmError;

const PAT_RESET: u64 = 0x0007_0406_0007_0406;

fn test_hardware() -> SvmHardware {
    SvmHardware {
        cpuid_ecx: 0x4,
        efer: 0,
        vm_cr: 0,
        vm_hsave_pa: 0,
        pat: PAT_RESET,
    }
}

fn new_vcpu() -> SvmVcpu {
    let mut alloc = FrameAllocator::new(0x10_0000, 8);
    let percpu = SvmPreCpuState::new();
    SvmVcpu::new(&percpu, &mut alloc, &test_hardware()).expect("two frames are available")
}

#[test]
fn setup_gives_every_general_segment_the_documented_reset_descriptor() {
    let vcpu = new_vcpu();
    let save = &vcpu.vmcb.vmcb.state_save_area;
    for seg in [&save.es, &save.cs, &save.ss, &save.ds, &save.fs, &save.gs] {
        assert_eq!(seg.selector, 0xffff);
        assert_eq!(seg.attrib, 0xffff);
        assert_eq!(seg.limit, 0xffff);
        assert_eq!(seg.base, 0x93);
    }
}

#[test]
fn setup_gives_table_registers_their_distinct_reset_values() {
    let vcpu = new_vcpu();
    let save = &vcpu.vmcb.vmcb.state_save_area;
    assert_eq!(save.tr.base, 0x8b);
    assert_eq!(save.ldtr.base, 0x83);
    assert_eq!(save.tr.limit, 0);
    assert_eq!(save.ldtr.limit, 0);
    assert_eq!(save.gdtr.limit, 0xffff);
    assert_eq!(save.idtr.limit, 0xffff);
    assert_eq!(save.gdtr.base, 0);
    assert_eq!(save.idtr.base, 0);
}

#[test]
fn setup_gives_control_and_pointer_registers_their_reset_values() {
    let vcpu = new_vcpu();
    let save = &vcpu.vmcb.vmcb.state_save_area;
    assert_eq!(save.cr0, 0x30, "numeric-error and extension-type bits only");
    assert_eq!(save.cr3, 0);
    assert_eq!(save.cr4, 0);
    assert_eq!(save.dr7, 0x400);
    assert_eq!(save.rip, 0);
    assert_eq!(save.rsp, 0);
    assert_eq!(save.rflags, 0x2, "exactly the mandatory reserved bit");
    assert_eq!(save.efer, 0);
    assert_eq!(save.sysenter_cs, 0);
    assert_eq!(save.sysenter_esp, 0);
    assert_eq!(save.sysenter_eip, 0);
    assert_eq!(save.dbgextnctl, 0);
}

#[test]
fn setup_mirrors_the_page_attribute_table_from_the_core() {
    let vcpu = new_vcpu();
    assert_eq!(vcpu.vmcb.vmcb.state_save_area.g_pat, PAT_RESET);

    let mut alloc = FrameAllocator::new(0x10_0000, 8);
    let percpu = SvmPreCpuState::new();
    let mut hw = test_hardware();
    hw.pat = 0x1234_5678_9abc_def0;
    let other = SvmVcpu::new(&percpu, &mut alloc, &hw).unwrap();
    assert_eq!(other.vmcb.vmcb.state_save_area.g_pat, 0x1234_5678_9abc_def0);
}

#[test]
fn setup_points_the_virtual_apic_base_and_clears_the_rest() {
    let vcpu = new_vcpu();
    let control = &vcpu.vmcb.vmcb.control_area;
    assert_eq!(control.avic_control_flags.apic_bar(), 0x1);
    assert_eq!(
        control.avic_control_flags.0.bits(),
        0x1,
        "the base value occupies the word's low bits"
    );
    assert_eq!(control.avic_control_flags.reserved(), 0);
    assert_eq!(control.guest.guest_asid(), 0);
    assert_eq!(control.exit.exit_code(), 0);
    assert_eq!(control.exit.exit_info_1(), 0);
    assert_eq!(control.exit.exit_info_2(), 0);
    assert_eq!(control.exit.exit_init_info(), 0);
    assert_eq!(control.iopm_base_pa, 0);
    assert_eq!(control.msrpm_base_pa, 0);
    assert_eq!(control.tsc_offset, 0);
    assert_eq!(control.intercept_vector3, rvm_svm::vmcb::VmcbInterceptVector3::new());
}

#[test]
fn vcpu_frames_are_distinct_and_page_aligned() {
    let vcpu = new_vcpu();
    let vmcb_paddr = vcpu.vmcb.phys_addr();
    let hsave_paddr = vcpu.host_state.start_paddr();
    assert_ne!(vmcb_paddr, hsave_paddr);
    assert_eq!(vmcb_paddr % 0x1000, 0);
    assert_eq!(hsave_paddr % 0x1000, 0);
}

#[test]
fn run_registers_the_host_save_address_and_yields_the_vmcb_address() {
    let mut vcpu = new_vcpu();
    let mut hw = test_hardware();
    let vmcb_paddr = vcpu.run(&mut hw);
    assert_eq!(vmcb_paddr, vcpu.vmcb.phys_addr());
    assert_eq!(hw.vm_hsave_pa, vcpu.host_state.start_paddr() as u64);
    assert_eq!(hw.efer, 0, "entry preparation touches no other register");
}

#[test]
fn vcpu_creation_propagates_out_of_memory() {
    let percpu = SvmPreCpuState::new();
    let hw = test_hardware();

    let mut empty = FrameAllocator::new(0x10_0000, 0);
    assert_eq!(
        SvmVcpu::new(&percpu, &mut empty, &hw).map(|_| ()),
        Err(RvmError::OutOfMemory)
    );

    let mut one_page = FrameAllocator::new(0x10_0000, 1);
    assert_eq!(
        SvmVcpu::new(&percpu, &mut one_page, &hw).map(|_| ()),
        Err(RvmError::OutOfMemory),
        "a vCPU needs a control-block frame and a host-save frame"
    );
}

#[test]
fn region_allocation_owns_one_cleared_frame() {
    let mut alloc = FrameAllocator::new(0x20_0000, 2);
    let region = SvmRegion::new(&mut alloc).unwrap();
    assert_eq!(region.phys_addr(), 0x20_0000);
    assert_eq!(region.vmcb.control_area.exit.exit_code(), 0);
    assert_eq!(region.vmcb.state_save_area.cr0, 0);

    let second = SvmRegion::new(&mut alloc).unwrap();
    assert_ne!(second.phys_addr(), region.phys_addr(), "frames are never aliased");

    assert_eq!(
        SvmRegion::new(&mut alloc).map(|_| ()),
        Err(RvmError::OutOfMemory)
    );
}

#[test]
fn frame_allocation_is_a_bump_over_the_region() {
    let mut alloc = FrameAllocator::new(0x40_0000, 2);
    let first = PhysFrame::alloc_zero(&mut alloc).unwrap();
    let second = PhysFrame::alloc_zero(&mut alloc).unwrap();
    assert_eq!(first.start_paddr(), 0x40_0000);
    assert_eq!(second.start_paddr(), 0x40_1000);
    assert_eq!(
        PhysFrame::alloc_zero(&mut alloc).map(|_| ()),
        Err(RvmError::OutOfMemory)
    );
}
