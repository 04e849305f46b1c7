//! The control-block model: bit-range accessors, reserved ranges
//! staying zero under documented mutations, and the TLB-control
//! decoder.

use rvm_svm::vmcb::{
    TlbControl, Vmcb, VmcbControlArea, VmcbInterceptVector3, VmcbInterceptVector4,
    VmcbInterceptVector5, VmcbStateSaveArea, VmInterruptControlFlags,
};

#[test]
fn intercept_bits_are_independent() {
    let mut v3 = VmcbInterceptVector3::new();
    v3.set_intercept_hlt(true);
    v3.set_intercept_cpuid(true);
    assert!(v3.intercept_hlt());
    assert!(v3.intercept_cpuid());
    assert!(!v3.intercept_pause());
    assert!(!v3.intercept_intr());

    v3.set_intercept_hlt(false);
    assert!(!v3.intercept_hlt());
    assert!(v3.intercept_cpuid(), "clearing one bit leaves the others");
}

#[test]
fn intercept_bit_positions_match_the_documented_words() {
    let mut v3 = VmcbInterceptVector3::new();
    v3.set_intercept_intr(true);
    v3.set_intercept_hlt(true);
    assert_eq!(v3.0.bits(), (1 << 0) | (1 << 24));

    let mut v4 = VmcbInterceptVector4::new();
    v4.set_intercept_vmrun(true);
    v4.set_intercept_efer_writes(true);
    v4.set_intercept_cr0(true);
    v4.set_intercept_dr15(true);
    assert_eq!(v4.0.bits(), (1 << 0) | (1 << 15) | (1 << 16) | (1u32 << 31));

    let mut v5 = VmcbInterceptVector5::new();
    v5.set_intercept_invlpgb(true);
    v5.set_intercept_hlt(true);
    assert_eq!(v5.0.bits(), (1 << 0) | (1 << 5));
    assert_eq!(v5.reserve(), 0);
}

#[test]
fn guest_word_packs_asid_and_tlb_control() {
    let mut area = VmcbControlArea::new();
    area.guest.set_guest_asid(0xdead_beef);
    area.guest.set_tlb_control(0x03);
    assert_eq!(area.guest.guest_asid(), 0xdead_beef);
    assert_eq!(area.guest.tlb_control(), 0x03);
    assert_eq!(area.guest.0.bits(), 0x3_dead_beef);
    assert_eq!(area.guest.reserved(), 0);
}

#[test]
fn reserved_ranges_read_zero_after_documented_mutations() {
    let mut area = VmcbControlArea::new();
    area.guest.set_guest_asid(1);
    area.guest.set_tlb_control(0xff);
    area.vm_interrupt_control_flags.set_v_tpr(0xf);
    area.vm_interrupt_control_flags.set_v_irq(true);
    area.vm_interrupt_control_flags.set_v_intr_prio(0xf);
    area.vm_interrupt_control_flags.set_v_intr_masking(true);
    area.vm_interrupt_control_flags.set_avic_enable(true);
    area.vm_interrupt_control_flags.set_v_intr_vector(0xff);
    area.vm_shadow_interrupt.set_interrupt_shadow(true);
    area.vm_shadow_interrupt.set_guest_interrupt_mask(true);
    area.nested_paging_flags.set_np_enable(true);
    area.nested_paging_flags.set_enable_sev(true);
    area.avic_control_flags.set_apic_bar(0xf_ffff_ffff_ffff);
    area.lbr_virtualization_flags.set_lbr_virtualization_enable(true);
    area.clean_bits.set_vmcb_clean_bits(0xffff_ffff);
    area.avic_backing_page_pointer.set_apic_backing_page_pointer(0xf_ffff_ffff_ffff);
    area.vmsa_pointer.set_vmsa_pointer(0xff_ffff_ffff);
    area.sev_features_mask.set_allowed_sev_features_mask(0x3fff_ffff_ffff_ffff);
    area.sev_features_mask.set_allowed_sev_features_en(true);
    area.guest_sev_features.set_guest_sev_features(0x3fff_ffff_ffff_ffff);

    assert_eq!(area.guest.reserved(), 0);
    assert_eq!(area.vm_interrupt_control_flags.reserved_tpr(), 0);
    assert_eq!(area.vm_interrupt_control_flags.reserved_vgif(), 0);
    assert_eq!(area.vm_interrupt_control_flags.reserved_nmi(), 0);
    assert_eq!(area.vm_interrupt_control_flags.reserved_intr(), 0);
    assert_eq!(area.vm_interrupt_control_flags.reserved_nmi_enable(), 0);
    assert_eq!(area.vm_interrupt_control_flags.reserved(), 0);
    assert_eq!(area.vm_shadow_interrupt.reserved(), 0);
    assert_eq!(area.nested_paging_flags.reserved(), 0);
    assert_eq!(area.avic_control_flags.reserved(), 0);
    assert_eq!(area.lbr_virtualization_flags.reserved(), 0);
    assert_eq!(area.clean_bits.reserved(), 0);
    assert_eq!(area.avic_backing_page_pointer.apic_backing_page_pointer_reserved(), 0);
    assert_eq!(area.vmsa_pointer.vmsa_pointer_reserved_1(), 0);
    assert_eq!(area.vmsa_pointer.vmsa_pointer_reserved_2(), 0);
    assert_eq!(area.sev_features_mask.reserved(), 0);
    assert_eq!(area.guest_sev_features.reserved(), 0);
}

#[test]
fn multi_bit_fields_store_only_their_range() {
    let mut flags = VmInterruptControlFlags::new();
    flags.set_v_tpr(0x5);
    flags.set_v_intr_vector(0xa7);
    assert_eq!(flags.v_tpr(), 0x5);
    assert_eq!(flags.v_intr_vector(), 0xa7);
    assert_eq!(flags.0.bits(), 0x5 | (0xa7u64 << 32));
}

#[test]
fn interrupt_control_flags_sit_at_their_documented_bits() {
    let mut flags = VmInterruptControlFlags::new();
    flags.set_v_irq(true);
    flags.set_v_nmi(true);
    flags.set_v_nmi_mask(true);
    flags.set_v_ign_tpr(true);
    flags.set_v_intr_masking(true);
    flags.set_avic_enable(true);
    assert_eq!(
        flags.0.bits(),
        (1 << 8) | (1 << 11) | (1 << 12) | (1 << 20) | (1 << 24) | (1u64 << 31)
    );
}

#[test]
fn tlb_control_decodes_the_documented_encodings() {
    let mut area = VmcbControlArea::new();
    assert_eq!(area.decode_tlb_control(), TlbControl::DoNothing);
    assert_eq!(area.tlb_control_description(), "Do nothing");

    area.guest.set_tlb_control(0x01);
    assert_eq!(area.decode_tlb_control(), TlbControl::FlushAll);
    assert_eq!(
        area.tlb_control_description(),
        "Flush entire TLB (all entries, all ASIDs) on VMRUN"
    );

    area.guest.set_tlb_control(0x03);
    assert_eq!(area.decode_tlb_control(), TlbControl::FlushGuest);
    assert_eq!(area.tlb_control_description(), "Flush this guest's TLB entries");

    area.guest.set_tlb_control(0x07);
    assert_eq!(area.decode_tlb_control(), TlbControl::FlushGuestNonGlobal);
    assert_eq!(
        area.tlb_control_description(),
        "Flush this guest's non-global TLB entries"
    );
}

#[test]
fn unknown_tlb_control_encodings_decode_to_reserved() {
    let mut area = VmcbControlArea::new();
    for enc in [0x02u64, 0x04, 0x05, 0x06, 0x08, 0xff] {
        area.guest.set_tlb_control(enc);
        assert_eq!(area.decode_tlb_control(), TlbControl::Reserved);
        assert_eq!(area.tlb_control_description(), "Reserved or Invalid encoding");
    }
}

#[test]
fn fresh_control_block_is_cleared() {
    let vmcb = Vmcb::new();
    assert_eq!(vmcb.control_area.exit.exit_code(), 0);
    assert_eq!(vmcb.control_area.guest.guest_asid(), 0);
    assert_eq!(vmcb.control_area.n_rip, 0);
    assert_eq!(vmcb.state_save_area.cr0, 0);
    assert_eq!(vmcb.state_save_area.rip, 0);
    let fresh_save = VmcbStateSaveArea::new();
    assert_eq!(fresh_save, vmcb.state_save_area);
}
