//! The structural layout table: every named field of the Control
//! Area and the State-Save Area sits at its documented byte offset,
//! and the areas have their documented total sizes.

use rvm_svm::layout;

#[test]
fn control_area_field_offsets_match_the_specification_table() {
    assert_eq!(layout::INTERCEPT_CR_READ_OFFSET, 0x00);
    assert_eq!(layout::INTERCEPT_CR_WRITE_OFFSET, 0x02);
    assert_eq!(layout::INTERCEPT_DR_READ_OFFSET, 0x04);
    assert_eq!(layout::INTERCEPT_DR_WRITE_OFFSET, 0x06);
    assert_eq!(layout::INTERCEPT_EXCEPTION_OFFSET, 0x08);
    assert_eq!(layout::INTERCEPT_VECTOR3_OFFSET, 0x0C);
    assert_eq!(layout::INTERCEPT_VECTOR4_OFFSET, 0x10);
    assert_eq!(layout::INTERCEPT_VECTOR5_OFFSET, 0x14);
    assert_eq!(layout::RESERVED_0X18_OFFSET, 0x18);
    assert_eq!(layout::PAUSE_FILTER_THRESHOLD_OFFSET, 0x3C);
    assert_eq!(layout::PAUSE_FILTER_COUNT_OFFSET, 0x3E);
    assert_eq!(layout::IOPM_BASE_PA_OFFSET, 0x40);
    assert_eq!(layout::MSRPM_BASE_PA_OFFSET, 0x48);
    assert_eq!(layout::TSC_OFFSET_OFFSET, 0x50);
    assert_eq!(layout::GUEST_OFFSET, 0x58);
    assert_eq!(layout::VM_INTERRUPT_CONTROL_FLAGS_OFFSET, 0x60);
    assert_eq!(layout::VM_SHADOW_INTERRUPT_OFFSET, 0x68);
    assert_eq!(layout::EXIT_CODE_OFFSET, 0x70);
    assert_eq!(layout::EXIT_INFO_1_OFFSET, 0x78);
    assert_eq!(layout::EXIT_INFO_2_OFFSET, 0x80);
    assert_eq!(layout::EXIT_INIT_INFO_OFFSET, 0x88);
    assert_eq!(layout::NESTED_PAGING_FLAGS_OFFSET, 0x90);
    assert_eq!(layout::AVIC_CONTROL_FLAGS_OFFSET, 0x98);
    assert_eq!(layout::GHCB_PA_OFFSET, 0xA0);
    assert_eq!(layout::EVENT_INJECTION_OFFSET, 0xA8);
    assert_eq!(layout::N_CR3_OFFSET, 0xB0);
    assert_eq!(layout::LBR_VIRTUALIZATION_FLAGS_OFFSET, 0xB8);
    assert_eq!(layout::CLEAN_BITS_OFFSET, 0xC0);
    assert_eq!(layout::N_RIP_OFFSET, 0xC8);
    assert_eq!(layout::INSTRUCTION_FETCH_COUNT_OFFSET, 0xD0);
    assert_eq!(layout::AVIC_BACKING_PAGE_POINTER_OFFSET, 0xE0);
    assert_eq!(layout::RESERVED_0XE8_OFFSET, 0xE8);
    assert_eq!(layout::AVIC_LOGICAL_BACKING_PAGE_POINTER_OFFSET, 0xF0);
    assert_eq!(layout::AVIC_PHYSICAL_BACKING_PAGE_POINTER_OFFSET, 0xF8);
    assert_eq!(layout::RESERVED_0X100_OFFSET, 0x100);
    assert_eq!(layout::VMSA_POINTER_OFFSET, 0x108);
    assert_eq!(layout::VMGEXIT_RAX_OFFSET, 0x110);
    assert_eq!(layout::VMGEXIT_CPL_OFFSET, 0x118);
    assert_eq!(layout::RESERVED_0X119_OFFSET, 0x119);
    assert_eq!(layout::BUS_LOCK_THRESHOLD_COUNTER_OFFSET, 0x120);
    assert_eq!(layout::RESERVED_0X122_OFFSET, 0x122);
    assert_eq!(layout::UPDATE_IRR_OFFSET, 0x133);
    assert_eq!(layout::SEV_FEATURES_MASK_OFFSET, 0x138);
    assert_eq!(layout::GUEST_SEV_FEATURES_OFFSET, 0x140);
    assert_eq!(layout::RESERVED_0X148_OFFSET, 0x148);
    assert_eq!(layout::REQUESTED_IRR_OFFSET, 0x150);
    assert_eq!(layout::RESERVED_0X170_OFFSET, 0x170);
    assert_eq!(layout::HOST_RESERVED_0X3E0_OFFSET, 0x3E0);
}

#[test]
fn state_save_area_field_offsets_match_the_specification_table() {
    assert_eq!(layout::ES_SAVE_OFFSET, 0x00);
    assert_eq!(layout::CS_SAVE_OFFSET, 0x10);
    assert_eq!(layout::SS_SAVE_OFFSET, 0x20);
    assert_eq!(layout::DS_SAVE_OFFSET, 0x30);
    assert_eq!(layout::FS_SAVE_OFFSET, 0x40);
    assert_eq!(layout::GS_SAVE_OFFSET, 0x50);
    assert_eq!(layout::GDTR_SAVE_OFFSET, 0x60);
    assert_eq!(layout::LDTR_SAVE_OFFSET, 0x70);
    assert_eq!(layout::IDTR_SAVE_OFFSET, 0x80);
    assert_eq!(layout::TR_SAVE_OFFSET, 0x90);
    assert_eq!(layout::RESERVED_0XA0_SAVE_OFFSET, 0xA0);
    assert_eq!(layout::CPL_SAVE_OFFSET, 0xCB);
    assert_eq!(layout::RESERVED_0XCC_SAVE_OFFSET, 0xCC);
    assert_eq!(layout::EFER_SAVE_OFFSET, 0xD0);
    assert_eq!(layout::RESERVED_0XD8_SAVE_OFFSET, 0xD8);
    assert_eq!(layout::PERF_CTL0_SAVE_OFFSET, 0xE0);
    assert_eq!(layout::PERF_CTR0_SAVE_OFFSET, 0xE8);
    assert_eq!(layout::PERF_CTL1_SAVE_OFFSET, 0xF0);
    assert_eq!(layout::PERF_CTR1_SAVE_OFFSET, 0xF8);
    assert_eq!(layout::PERF_CTL2_SAVE_OFFSET, 0x100);
    assert_eq!(layout::PERF_CTR2_SAVE_OFFSET, 0x108);
    assert_eq!(layout::PERF_CTL3_SAVE_OFFSET, 0x110);
    assert_eq!(layout::PERF_CTR3_SAVE_OFFSET, 0x118);
    assert_eq!(layout::PERF_CTL4_SAVE_OFFSET, 0x120);
    assert_eq!(layout::PERF_CTR4_SAVE_OFFSET, 0x128);
    assert_eq!(layout::PERF_CTL5_SAVE_OFFSET, 0x130);
    assert_eq!(layout::PERF_CTR5_SAVE_OFFSET, 0x138);
    assert_eq!(layout::RESERVED_0X140_SAVE_OFFSET, 0x140);
    assert_eq!(layout::CR4_SAVE_OFFSET, 0x148);
    assert_eq!(layout::CR3_SAVE_OFFSET, 0x150);
    assert_eq!(layout::CR0_SAVE_OFFSET, 0x158);
    assert_eq!(layout::DR7_SAVE_OFFSET, 0x160);
    assert_eq!(layout::DR6_SAVE_OFFSET, 0x168);
    assert_eq!(layout::RFLAGS_SAVE_OFFSET, 0x170);
    assert_eq!(layout::RIP_SAVE_OFFSET, 0x178);
    assert_eq!(layout::RESERVED_0X180_SAVE_OFFSET, 0x180);
    assert_eq!(layout::INSTR_RETIRED_CTR_SAVE_OFFSET, 0x1B8);
    assert_eq!(layout::PERF_CTR_GLOBAL_STS_SAVE_OFFSET, 0x1C0);
    assert_eq!(layout::PERF_CTR_GLOBAL_CTL_SAVE_OFFSET, 0x1C8);
    assert_eq!(layout::RESERVED_0X1D0_SAVE_OFFSET, 0x1D0);
    assert_eq!(layout::RSP_SAVE_OFFSET, 0x1D8);
    assert_eq!(layout::S_CET_SAVE_OFFSET, 0x1E0);
    assert_eq!(layout::SSP_SAVE_OFFSET, 0x1E8);
    assert_eq!(layout::ISST_ADDR_SAVE_OFFSET, 0x1F0);
    assert_eq!(layout::RAX_SAVE_OFFSET, 0x1F8);
    assert_eq!(layout::STAR_SAVE_OFFSET, 0x200);
    assert_eq!(layout::LSTAR_SAVE_OFFSET, 0x208);
    assert_eq!(layout::CSTAR_SAVE_OFFSET, 0x210);
    assert_eq!(layout::SFMASK_SAVE_OFFSET, 0x218);
    assert_eq!(layout::KERNEL_GS_BASE_SAVE_OFFSET, 0x220);
    assert_eq!(layout::SYSENTER_CS_SAVE_OFFSET, 0x228);
    assert_eq!(layout::SYSENTER_ESP_SAVE_OFFSET, 0x230);
    assert_eq!(layout::SYSENTER_EIP_SAVE_OFFSET, 0x238);
    assert_eq!(layout::CR2_SAVE_OFFSET, 0x240);
    assert_eq!(layout::RESERVED_0X248_SAVE_OFFSET, 0x248);
    assert_eq!(layout::G_PAT_SAVE_OFFSET, 0x268);
    assert_eq!(layout::DBGCTL_SAVE_OFFSET, 0x270);
    assert_eq!(layout::BR_FROM_SAVE_OFFSET, 0x278);
    assert_eq!(layout::BR_TO_SAVE_OFFSET, 0x280);
    assert_eq!(layout::LASTEXCPFROM_SAVE_OFFSET, 0x288);
    assert_eq!(layout::LASTEXCPTO_SAVE_OFFSET, 0x290);
    assert_eq!(layout::DBGEXTNCTL_SAVE_OFFSET, 0x298);
    assert_eq!(layout::RESERVED_0X2A0_SAVE_OFFSET, 0x2A0);
    assert_eq!(layout::SPEC_CTRL_SAVE_OFFSET, 0x2E0);
    assert_eq!(layout::RESERVED_0X2E8_SAVE_OFFSET, 0x2E8);
    assert_eq!(layout::LBR_STACK_SAVE_OFFSET, 0x670);
    assert_eq!(layout::LBR_SELECT_SAVE_OFFSET, 0x770);
    assert_eq!(layout::IBS_FETCH_CTL_SAVE_OFFSET, 0x778);
    assert_eq!(layout::IBS_FETCH_LINADDR_SAVE_OFFSET, 0x780);
    assert_eq!(layout::IBS_OP_CTL_SAVE_OFFSET, 0x788);
    assert_eq!(layout::IBS_OP_RIP_SAVE_OFFSET, 0x790);
    assert_eq!(layout::IBS_OP_DATA_SAVE_OFFSET, 0x798);
    assert_eq!(layout::IBS_OP_DATA2_SAVE_OFFSET, 0x7A0);
    assert_eq!(layout::IBS_OP_DATA3_SAVE_OFFSET, 0x7A8);
    assert_eq!(layout::IBS_DC_LINADDR_SAVE_OFFSET, 0x7B0);
    assert_eq!(layout::BP_IBSTGT_RIP_SAVE_OFFSET, 0x7B8);
    assert_eq!(layout::IC_IBST_EXTD_CTL_SAVE_OFFSET, 0x7C0);
}

#[test]
fn area_sizes_match_the_specification() {
    assert_eq!(layout::CONTROL_AREA_SIZE, 0x400);
    assert_eq!(layout::STATE_SAVE_AREA_OFFSET, 0x400);
    assert_eq!(layout::STATE_SAVE_AREA_SIZE, 0x7C8);
    assert_eq!(layout::PAGE_SIZE, 0x1000);
    assert!(layout::STATE_SAVE_AREA_OFFSET + layout::STATE_SAVE_AREA_SIZE <= layout::PAGE_SIZE);
    assert_eq!(layout::HOST_RESERVED_0X3E0_OFFSET + 0x20, layout::CONTROL_AREA_SIZE);
    assert_eq!(layout::IC_IBST_EXTD_CTL_SAVE_OFFSET + 0x8, layout::STATE_SAVE_AREA_SIZE);
}
