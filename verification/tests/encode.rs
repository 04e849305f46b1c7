//! The byte image of the control block: fields land at their
//! documented offsets in little-endian order and reserved gaps are
//! zero.

use rvm_svm::frame::FrameAllocator;
use rvm_svm::layout;
use rvm_svm::percpu::SvmPreCpuState;
use rvm_svm::svm::SvmHardware;
use rvm_svm::vcpu::SvmVcpu;
use rvm_svm::vmcb::{VmcbControlArea, VmcbStateSaveArea};

#[test]
fn a_cleared_control_area_encodes_to_all_zero_bytes() {
    let bytes = VmcbControlArea::new().to_bytes();
    assert_eq!(bytes.len(), layout::CONTROL_AREA_SIZE);
    assert!(bytes.iter().all(|&b| b == 0));
}

#[test]
fn a_cleared_save_area_encodes_to_all_zero_bytes() {
    let bytes = VmcbStateSaveArea::new().to_bytes();
    assert_eq!(bytes.len(), layout::STATE_SAVE_AREA_SIZE);
    assert!(bytes.iter().all(|&b| b == 0));
}

#[test]
fn control_fields_land_at_their_documented_offsets() {
    let mut area = VmcbControlArea::new();
    area.intercept_cr_read = 0x1234;
    area.intercept_exception = 0xa1b2_c3d4;
    area.guest.set_guest_asid(0x1122_3344);
    area.guest.set_tlb_control(0x07);
    area.tsc_offset = 0x0102_0304_0506_0708;
    area.vm_interrupt_control_flags.set_v_irq(true);

    let bytes = area.to_bytes();
    assert_eq!(
        &bytes[layout::INTERCEPT_CR_READ_OFFSET..layout::INTERCEPT_CR_READ_OFFSET + 2],
        &[0x34, 0x12]
    );
    assert_eq!(
        &bytes[layout::INTERCEPT_EXCEPTION_OFFSET..layout::INTERCEPT_EXCEPTION_OFFSET + 4],
        &[0xd4, 0xc3, 0xb2, 0xa1]
    );
    assert_eq!(
        &bytes[layout::GUEST_OFFSET..layout::GUEST_OFFSET + 8],
        &[0x44, 0x33, 0x22, 0x11, 0x07, 0x00, 0x00, 0x00]
    );
    assert_eq!(
        &bytes[layout::TSC_OFFSET_OFFSET..layout::TSC_OFFSET_OFFSET + 8],
        &[0x08, 0x07, 0x06, 0x05, 0x04, 0x03, 0x02, 0x01]
    );
    assert_eq!(
        bytes[layout::VM_INTERRUPT_CONTROL_FLAGS_OFFSET + 1],
        0x01,
        "the pending-interrupt flag is bit 8 of its word"
    );
    for i in 0..8 {
        assert_eq!(bytes[layout::EXIT_CODE_OFFSET + i], 0, "exit fields start zero");
    }
    for i in 0..0x24 {
        assert_eq!(bytes[layout::RESERVED_0X18_OFFSET + i], 0, "reserved gaps are zero");
    }
}

#[test]
fn the_reset_state_encodes_at_the_documented_save_offsets() {
    let mut alloc = FrameAllocator::new(0x10_0000, 4);
    let percpu = SvmPreCpuState::new();
    let hw = SvmHardware {
        cpuid_ecx: 0x4,
        efer: 0,
        vm_cr: 0,
        vm_hsave_pa: 0,
        pat: 0x0007_0406_0007_0406,
    };
    let vcpu = SvmVcpu::new(&percpu, &mut alloc, &hw).unwrap();
    let bytes = vcpu.vmcb.vmcb.state_save_area.to_bytes();

    // ES descriptor cache: selector, attributes, limit, base.
    assert_eq!(
        &bytes[layout::ES_SAVE_OFFSET..layout::ES_SAVE_OFFSET + 16],
        &[
            0xff, 0xff, 0xff, 0xff, 0xff, 0xff, 0x00, 0x00, 0x93, 0x00, 0x00, 0x00, 0x00, 0x00,
            0x00, 0x00
        ]
    );
    assert_eq!(bytes[layout::TR_SAVE_OFFSET + 8], 0x8b);
    assert_eq!(bytes[layout::LDTR_SAVE_OFFSET + 8], 0x83);
    assert_eq!(bytes[layout::CR0_SAVE_OFFSET], 0x30);
    assert_eq!(bytes[layout::DR7_SAVE_OFFSET], 0x00);
    assert_eq!(bytes[layout::DR7_SAVE_OFFSET + 1], 0x04);
    assert_eq!(bytes[layout::RFLAGS_SAVE_OFFSET], 0x02);
    assert_eq!(
        &bytes[layout::G_PAT_SAVE_OFFSET..layout::G_PAT_SAVE_OFFSET + 8],
        &[0x06, 0x04, 0x07, 0x00, 0x06, 0x04, 0x07, 0x00]
    );
}
