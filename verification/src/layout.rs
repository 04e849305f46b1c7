//! The byte layout of the control block, fixed by the hardware
//! specification: each named field's offset within its area, derived
//! field by field so that the areas tile exactly, and the documented
//! area sizes. Raw-byte compatibility of the control block rests on
//! this table; the layout lemmas pin every derived offset to its
//! documented value.

use vstd::prelude::*;

verus! {

/// The page size of the physical frames the control block lives in.
pub const PAGE_SIZE: usize = 0x1000;

/// The documented size of the Control Area.
pub const CONTROL_AREA_SIZE: usize = 0x400;

/// The offset of the State-Save Area within the control block: it
/// immediately follows the Control Area.
pub const STATE_SAVE_AREA_OFFSET: usize = CONTROL_AREA_SIZE;

/// The documented size of the State-Save Area; the rest of the
/// control block's page is reserved.
pub const STATE_SAVE_AREA_SIZE: usize = 0x7C8;

/// Offset of `intercept_cr_read` within the Control Area.
pub const INTERCEPT_CR_READ_OFFSET: usize = 0x00;

/// Offset of `intercept_cr_write` within the Control Area.
pub const INTERCEPT_CR_WRITE_OFFSET: usize = INTERCEPT_CR_READ_OFFSET + 0x2;

/// Offset of `intercept_dr_read` within the Control Area.
pub const INTERCEPT_DR_READ_OFFSET: usize = INTERCEPT_CR_WRITE_OFFSET + 0x2;

/// Offset of `intercept_dr_write` within the Control Area.
pub const INTERCEPT_DR_WRITE_OFFSET: usize = INTERCEPT_DR_READ_OFFSET + 0x2;

/// Offset of `intercept_exception` within the Control Area.
pub const INTERCEPT_EXCEPTION_OFFSET: usize = INTERCEPT_DR_WRITE_OFFSET + 0x2;

/// Offset of `intercept_vector3` within the Control Area.
pub const INTERCEPT_VECTOR3_OFFSET: usize = INTERCEPT_EXCEPTION_OFFSET + 0x4;

/// Offset of `intercept_vector4` within the Control Area.
pub const INTERCEPT_VECTOR4_OFFSET: usize = INTERCEPT_VECTOR3_OFFSET + 0x4;

/// Offset of `intercept_vector5` within the Control Area.
pub const INTERCEPT_VECTOR5_OFFSET: usize = INTERCEPT_VECTOR4_OFFSET + 0x4;

/// Offset of the reserved range at `0x18` within the Control Area.
pub const RESERVED_0X18_OFFSET: usize = INTERCEPT_VECTOR5_OFFSET + 0x4;

/// Offset of `pause_filter_threshold` within the Control Area.
pub const PAUSE_FILTER_THRESHOLD_OFFSET: usize = RESERVED_0X18_OFFSET + 0x24;

/// Offset of `pause_filter_count` within the Control Area.
pub const PAUSE_FILTER_COUNT_OFFSET: usize = PAUSE_FILTER_THRESHOLD_OFFSET + 0x2;

/// Offset of `iopm_base_pa` within the Control Area.
pub const IOPM_BASE_PA_OFFSET: usize = PAUSE_FILTER_COUNT_OFFSET + 0x2;

/// Offset of `msrpm_base_pa` within the Control Area.
pub const MSRPM_BASE_PA_OFFSET: usize = IOPM_BASE_PA_OFFSET + 0x8;

/// Offset of `tsc_offset` within the Control Area.
pub const TSC_OFFSET_OFFSET: usize = MSRPM_BASE_PA_OFFSET + 0x8;

/// Offset of `guest` within the Control Area.
pub const GUEST_OFFSET: usize = TSC_OFFSET_OFFSET + 0x8;

/// Offset of `vm_interrupt_control_flags` within the Control Area.
pub const VM_INTERRUPT_CONTROL_FLAGS_OFFSET: usize = GUEST_OFFSET + 0x8;

/// Offset of `vm_shadow_interrupt` within the Control Area.
pub const VM_SHADOW_INTERRUPT_OFFSET: usize = VM_INTERRUPT_CONTROL_FLAGS_OFFSET + 0x8;

/// Offset of `exit_code` within the Control Area.
pub const EXIT_CODE_OFFSET: usize = VM_SHADOW_INTERRUPT_OFFSET + 0x8;

/// Offset of `exit_info_1` within the Control Area.
pub const EXIT_INFO_1_OFFSET: usize = EXIT_CODE_OFFSET + 0x8;

/// Offset of `exit_info_2` within the Control Area.
pub const EXIT_INFO_2_OFFSET: usize = EXIT_INFO_1_OFFSET + 0x8;

/// Offset of `exit_init_info` within the Control Area.
pub const EXIT_INIT_INFO_OFFSET: usize = EXIT_INFO_2_OFFSET + 0x8;

/// Offset of `nested_paging_flags` within the Control Area.
pub const NESTED_PAGING_FLAGS_OFFSET: usize = EXIT_INIT_INFO_OFFSET + 0x8;

/// Offset of `avic_control_flags` within the Control Area.
pub const AVIC_CONTROL_FLAGS_OFFSET: usize = NESTED_PAGING_FLAGS_OFFSET + 0x8;

/// Offset of `ghcb_pa` within the Control Area.
pub const GHCB_PA_OFFSET: usize = AVIC_CONTROL_FLAGS_OFFSET + 0x8;

/// Offset of `event_injection` within the Control Area.
pub const EVENT_INJECTION_OFFSET: usize = GHCB_PA_OFFSET + 0x8;

/// Offset of `n_cr3` within the Control Area.
pub const N_CR3_OFFSET: usize = EVENT_INJECTION_OFFSET + 0x8;

/// Offset of `lbr_virtualization_flags` within the Control Area.
pub const LBR_VIRTUALIZATION_FLAGS_OFFSET: usize = N_CR3_OFFSET + 0x8;

/// Offset of `clean_bits` within the Control Area.
pub const CLEAN_BITS_OFFSET: usize = LBR_VIRTUALIZATION_FLAGS_OFFSET + 0x8;

/// Offset of `n_rip` within the Control Area.
pub const N_RIP_OFFSET: usize = CLEAN_BITS_OFFSET + 0x8;

/// Offset of `instruction_fetch_count` within the Control Area.
pub const INSTRUCTION_FETCH_COUNT_OFFSET: usize = N_RIP_OFFSET + 0x8;

/// Offset of `avic_backing_page_pointer` within the Control Area.
pub const AVIC_BACKING_PAGE_POINTER_OFFSET: usize = INSTRUCTION_FETCH_COUNT_OFFSET + 0x10;

/// Offset of the reserved range at `0xe8` within the Control Area.
pub const RESERVED_0XE8_OFFSET: usize = AVIC_BACKING_PAGE_POINTER_OFFSET + 0x8;

/// Offset of `avic_logical_backing_page_pointer` within the Control Area.
pub const AVIC_LOGICAL_BACKING_PAGE_POINTER_OFFSET: usize = RESERVED_0XE8_OFFSET + 0x8;

/// Offset of `avic_physical_backing_page_pointer` within the Control Area.
pub const AVIC_PHYSICAL_BACKING_PAGE_POINTER_OFFSET: usize = AVIC_LOGICAL_BACKING_PAGE_POINTER_OFFSET + 0x8;

/// Offset of the reserved range at `0x100` within the Control Area.
pub const RESERVED_0X100_OFFSET: usize = AVIC_PHYSICAL_BACKING_PAGE_POINTER_OFFSET + 0x8;

/// Offset of `vmsa_pointer` within the Control Area.
pub const VMSA_POINTER_OFFSET: usize = RESERVED_0X100_OFFSET + 0x8;

/// Offset of `vmgexit_rax` within the Control Area.
pub const VMGEXIT_RAX_OFFSET: usize = VMSA_POINTER_OFFSET + 0x8;

/// Offset of `vmgexit_cpl` within the Control Area.
pub const VMGEXIT_CPL_OFFSET: usize = VMGEXIT_RAX_OFFSET + 0x8;

/// Offset of the reserved range at `0x119` within the Control Area.
pub const RESERVED_0X119_OFFSET: usize = VMGEXIT_CPL_OFFSET + 0x1;

/// Offset of `bus_lock_threshold_counter` within the Control Area.
pub const BUS_LOCK_THRESHOLD_COUNTER_OFFSET: usize = RESERVED_0X119_OFFSET + 0x7;

/// Offset of the reserved range at `0x122` within the Control Area.
pub const RESERVED_0X122_OFFSET: usize = BUS_LOCK_THRESHOLD_COUNTER_OFFSET + 0x2;

/// Offset of `update_irr` within the Control Area.
pub const UPDATE_IRR_OFFSET: usize = RESERVED_0X122_OFFSET + 0x11;

/// Offset of `sev_features_mask` within the Control Area.
pub const SEV_FEATURES_MASK_OFFSET: usize = UPDATE_IRR_OFFSET + 0x5;

/// Offset of `guest_sev_features` within the Control Area.
pub const GUEST_SEV_FEATURES_OFFSET: usize = SEV_FEATURES_MASK_OFFSET + 0x8;

/// Offset of the reserved range at `0x148` within the Control Area.
pub const RESERVED_0X148_OFFSET: usize = GUEST_SEV_FEATURES_OFFSET + 0x8;

/// Offset of `requested_irr` within the Control Area.
pub const REQUESTED_IRR_OFFSET: usize = RESERVED_0X148_OFFSET + 0x8;

/// Offset of the reserved range at `0x170` within the Control Area.
pub const RESERVED_0X170_OFFSET: usize = REQUESTED_IRR_OFFSET + 0x20;

/// Offset of the reserved range at `0x3e0` within the Control Area.
pub const HOST_RESERVED_0X3E0_OFFSET: usize = RESERVED_0X170_OFFSET + 0x270;

/// Every Control-Area field begins where the previous one ends: the
/// derived offsets stand at their documented values and the fields
/// tile the area's documented size exactly.
pub proof fn lemma_control_area_layout()
    ensures
        INTERCEPT_CR_READ_OFFSET == 0x00,
        INTERCEPT_CR_WRITE_OFFSET == 0x02,
        INTERCEPT_DR_READ_OFFSET == 0x04,
        INTERCEPT_DR_WRITE_OFFSET == 0x06,
        INTERCEPT_EXCEPTION_OFFSET == 0x08,
        INTERCEPT_VECTOR3_OFFSET == 0x0C,
        INTERCEPT_VECTOR4_OFFSET == 0x10,
        INTERCEPT_VECTOR5_OFFSET == 0x14,
        RESERVED_0X18_OFFSET == 0x18,
        PAUSE_FILTER_THRESHOLD_OFFSET == 0x3C,
        PAUSE_FILTER_COUNT_OFFSET == 0x3E,
        IOPM_BASE_PA_OFFSET == 0x40,
        MSRPM_BASE_PA_OFFSET == 0x48,
        TSC_OFFSET_OFFSET == 0x50,
        GUEST_OFFSET == 0x58,
        VM_INTERRUPT_CONTROL_FLAGS_OFFSET == 0x60,
        VM_SHADOW_INTERRUPT_OFFSET == 0x68,
        EXIT_CODE_OFFSET == 0x70,
        EXIT_INFO_1_OFFSET == 0x78,
        EXIT_INFO_2_OFFSET == 0x80,
        EXIT_INIT_INFO_OFFSET == 0x88,
        NESTED_PAGING_FLAGS_OFFSET == 0x90,
        AVIC_CONTROL_FLAGS_OFFSET == 0x98,
        GHCB_PA_OFFSET == 0xA0,
        EVENT_INJECTION_OFFSET == 0xA8,
        N_CR3_OFFSET == 0xB0,
        LBR_VIRTUALIZATION_FLAGS_OFFSET == 0xB8,
        CLEAN_BITS_OFFSET == 0xC0,
        N_RIP_OFFSET == 0xC8,
        INSTRUCTION_FETCH_COUNT_OFFSET == 0xD0,
        AVIC_BACKING_PAGE_POINTER_OFFSET == 0xE0,
        RESERVED_0XE8_OFFSET == 0xE8,
        AVIC_LOGICAL_BACKING_PAGE_POINTER_OFFSET == 0xF0,
        AVIC_PHYSICAL_BACKING_PAGE_POINTER_OFFSET == 0xF8,
        RESERVED_0X100_OFFSET == 0x100,
        VMSA_POINTER_OFFSET == 0x108,
        VMGEXIT_RAX_OFFSET == 0x110,
        VMGEXIT_CPL_OFFSET == 0x118,
        RESERVED_0X119_OFFSET == 0x119,
        BUS_LOCK_THRESHOLD_COUNTER_OFFSET == 0x120,
        RESERVED_0X122_OFFSET == 0x122,
        UPDATE_IRR_OFFSET == 0x133,
        SEV_FEATURES_MASK_OFFSET == 0x138,
        GUEST_SEV_FEATURES_OFFSET == 0x140,
        RESERVED_0X148_OFFSET == 0x148,
        REQUESTED_IRR_OFFSET == 0x150,
        RESERVED_0X170_OFFSET == 0x170,
        HOST_RESERVED_0X3E0_OFFSET == 0x3E0,
        HOST_RESERVED_0X3E0_OFFSET + 0x20 == CONTROL_AREA_SIZE,
{
}

/// Offset of `es` within the State-Save Area.
pub const ES_SAVE_OFFSET: usize = 0x00;

/// Offset of `cs` within the State-Save Area.
pub const CS_SAVE_OFFSET: usize = ES_SAVE_OFFSET + 0x10;

/// Offset of `ss` within the State-Save Area.
pub const SS_SAVE_OFFSET: usize = CS_SAVE_OFFSET + 0x10;

/// Offset of `ds` within the State-Save Area.
pub const DS_SAVE_OFFSET: usize = SS_SAVE_OFFSET + 0x10;

/// Offset of `fs` within the State-Save Area.
pub const FS_SAVE_OFFSET: usize = DS_SAVE_OFFSET + 0x10;

/// Offset of `gs` within the State-Save Area.
pub const GS_SAVE_OFFSET: usize = FS_SAVE_OFFSET + 0x10;

/// Offset of `gdtr` within the State-Save Area.
pub const GDTR_SAVE_OFFSET: usize = GS_SAVE_OFFSET + 0x10;

/// Offset of `ldtr` within the State-Save Area.
pub const LDTR_SAVE_OFFSET: usize = GDTR_SAVE_OFFSET + 0x10;

/// Offset of `idtr` within the State-Save Area.
pub const IDTR_SAVE_OFFSET: usize = LDTR_SAVE_OFFSET + 0x10;

/// Offset of `tr` within the State-Save Area.
pub const TR_SAVE_OFFSET: usize = IDTR_SAVE_OFFSET + 0x10;

/// Offset of the reserved range at `0xa0` within the State-Save Area.
pub const RESERVED_0XA0_SAVE_OFFSET: usize = TR_SAVE_OFFSET + 0x10;

/// Offset of `cpl` within the State-Save Area.
pub const CPL_SAVE_OFFSET: usize = RESERVED_0XA0_SAVE_OFFSET + 0x2B;

/// Offset of the reserved range at `0xcc` within the State-Save Area.
pub const RESERVED_0XCC_SAVE_OFFSET: usize = CPL_SAVE_OFFSET + 0x1;

/// Offset of `efer` within the State-Save Area.
pub const EFER_SAVE_OFFSET: usize = RESERVED_0XCC_SAVE_OFFSET + 0x4;

/// Offset of the reserved range at `0xd8` within the State-Save Area.
pub const RESERVED_0XD8_SAVE_OFFSET: usize = EFER_SAVE_OFFSET + 0x8;

/// Offset of `perf_ctl0` within the State-Save Area.
pub const PERF_CTL0_SAVE_OFFSET: usize = RESERVED_0XD8_SAVE_OFFSET + 0x8;

/// Offset of `perf_ctr0` within the State-Save Area.
pub const PERF_CTR0_SAVE_OFFSET: usize = PERF_CTL0_SAVE_OFFSET + 0x8;

/// Offset of `perf_ctl1` within the State-Save Area.
pub const PERF_CTL1_SAVE_OFFSET: usize = PERF_CTR0_SAVE_OFFSET + 0x8;

/// Offset of `perf_ctr1` within the State-Save Area.
pub const PERF_CTR1_SAVE_OFFSET: usize = PERF_CTL1_SAVE_OFFSET + 0x8;

/// Offset of `perf_ctl2` within the State-Save Area.
pub const PERF_CTL2_SAVE_OFFSET: usize = PERF_CTR1_SAVE_OFFSET + 0x8;

/// Offset of `perf_ctr2` within the State-Save Area.
pub const PERF_CTR2_SAVE_OFFSET: usize = PERF_CTL2_SAVE_OFFSET + 0x8;

/// Offset of `perf_ctl3` within the State-Save Area.
pub const PERF_CTL3_SAVE_OFFSET: usize = PERF_CTR2_SAVE_OFFSET + 0x8;

/// Offset of `perf_ctr3` within the State-Save Area.
pub const PERF_CTR3_SAVE_OFFSET: usize = PERF_CTL3_SAVE_OFFSET + 0x8;

/// Offset of `perf_ctl4` within the State-Save Area.
pub const PERF_CTL4_SAVE_OFFSET: usize = PERF_CTR3_SAVE_OFFSET + 0x8;

/// Offset of `perf_ctr4` within the State-Save Area.
pub const PERF_CTR4_SAVE_OFFSET: usize = PERF_CTL4_SAVE_OFFSET + 0x8;

/// Offset of `perf_ctl5` within the State-Save Area.
pub const PERF_CTL5_SAVE_OFFSET: usize = PERF_CTR4_SAVE_OFFSET + 0x8;

/// Offset of `perf_ctr5` within the State-Save Area.
pub const PERF_CTR5_SAVE_OFFSET: usize = PERF_CTL5_SAVE_OFFSET + 0x8;

/// Offset of the reserved range at `0x140` within the State-Save Area.
pub const RESERVED_0X140_SAVE_OFFSET: usize = PERF_CTR5_SAVE_OFFSET + 0x8;

/// Offset of `cr4` within the State-Save Area.
pub const CR4_SAVE_OFFSET: usize = RESERVED_0X140_SAVE_OFFSET + 0x8;

/// Offset of `cr3` within the State-Save Area.
pub const CR3_SAVE_OFFSET: usize = CR4_SAVE_OFFSET + 0x8;

/// Offset of `cr0` within the State-Save Area.
pub const CR0_SAVE_OFFSET: usize = CR3_SAVE_OFFSET + 0x8;

/// Offset of `dr7` within the State-Save Area.
pub const DR7_SAVE_OFFSET: usize = CR0_SAVE_OFFSET + 0x8;

/// Offset of `dr6` within the State-Save Area.
pub const DR6_SAVE_OFFSET: usize = DR7_SAVE_OFFSET + 0x8;

/// Offset of `rflags` within the State-Save Area.
pub const RFLAGS_SAVE_OFFSET: usize = DR6_SAVE_OFFSET + 0x8;

/// Offset of `rip` within the State-Save Area.
pub const RIP_SAVE_OFFSET: usize = RFLAGS_SAVE_OFFSET + 0x8;

/// Offset of the reserved range at `0x180` within the State-Save Area.
pub const RESERVED_0X180_SAVE_OFFSET: usize = RIP_SAVE_OFFSET + 0x8;

/// Offset of `instr_retired_ctr` within the State-Save Area.
pub const INSTR_RETIRED_CTR_SAVE_OFFSET: usize = RESERVED_0X180_SAVE_OFFSET + 0x38;

/// Offset of `perf_ctr_global_sts` within the State-Save Area.
pub const PERF_CTR_GLOBAL_STS_SAVE_OFFSET: usize = INSTR_RETIRED_CTR_SAVE_OFFSET + 0x8;

/// Offset of `perf_ctr_global_ctl` within the State-Save Area.
pub const PERF_CTR_GLOBAL_CTL_SAVE_OFFSET: usize = PERF_CTR_GLOBAL_STS_SAVE_OFFSET + 0x8;

/// Offset of the reserved range at `0x1d0` within the State-Save Area.
pub const RESERVED_0X1D0_SAVE_OFFSET: usize = PERF_CTR_GLOBAL_CTL_SAVE_OFFSET + 0x8;

/// Offset of `rsp` within the State-Save Area.
pub const RSP_SAVE_OFFSET: usize = RESERVED_0X1D0_SAVE_OFFSET + 0x8;

/// Offset of `s_cet` within the State-Save Area.
pub const S_CET_SAVE_OFFSET: usize = RSP_SAVE_OFFSET + 0x8;

/// Offset of `ssp` within the State-Save Area.
pub const SSP_SAVE_OFFSET: usize = S_CET_SAVE_OFFSET + 0x8;

/// Offset of `isst_addr` within the State-Save Area.
pub const ISST_ADDR_SAVE_OFFSET: usize = SSP_SAVE_OFFSET + 0x8;

/// Offset of `rax` within the State-Save Area.
pub const RAX_SAVE_OFFSET: usize = ISST_ADDR_SAVE_OFFSET + 0x8;

/// Offset of `star` within the State-Save Area.
pub const STAR_SAVE_OFFSET: usize = RAX_SAVE_OFFSET + 0x8;

/// Offset of `lstar` within the State-Save Area.
pub const LSTAR_SAVE_OFFSET: usize = STAR_SAVE_OFFSET + 0x8;

/// Offset of `cstar` within the State-Save Area.
pub const CSTAR_SAVE_OFFSET: usize = LSTAR_SAVE_OFFSET + 0x8;

/// Offset of `sfmask` within the State-Save Area.
pub const SFMASK_SAVE_OFFSET: usize = CSTAR_SAVE_OFFSET + 0x8;

/// Offset of `kernel_gs_base` within the State-Save Area.
pub const KERNEL_GS_BASE_SAVE_OFFSET: usize = SFMASK_SAVE_OFFSET + 0x8;

/// Offset of `sysenter_cs` within the State-Save Area.
pub const SYSENTER_CS_SAVE_OFFSET: usize = KERNEL_GS_BASE_SAVE_OFFSET + 0x8;

/// Offset of `sysenter_esp` within the State-Save Area.
pub const SYSENTER_ESP_SAVE_OFFSET: usize = SYSENTER_CS_SAVE_OFFSET + 0x8;

/// Offset of `sysenter_eip` within the State-Save Area.
pub const SYSENTER_EIP_SAVE_OFFSET: usize = SYSENTER_ESP_SAVE_OFFSET + 0x8;

/// Offset of `cr2` within the State-Save Area.
pub const CR2_SAVE_OFFSET: usize = SYSENTER_EIP_SAVE_OFFSET + 0x8;

/// Offset of the reserved range at `0x248` within the State-Save Area.
pub const RESERVED_0X248_SAVE_OFFSET: usize = CR2_SAVE_OFFSET + 0x8;

/// Offset of `g_pat` within the State-Save Area.
pub const G_PAT_SAVE_OFFSET: usize = RESERVED_0X248_SAVE_OFFSET + 0x20;

/// Offset of `dbgctl` within the State-Save Area.
pub const DBGCTL_SAVE_OFFSET: usize = G_PAT_SAVE_OFFSET + 0x8;

/// Offset of `br_from` within the State-Save Area.
pub const BR_FROM_SAVE_OFFSET: usize = DBGCTL_SAVE_OFFSET + 0x8;

/// Offset of `br_to` within the State-Save Area.
pub const BR_TO_SAVE_OFFSET: usize = BR_FROM_SAVE_OFFSET + 0x8;

/// Offset of `lastexcpfrom` within the State-Save Area.
pub const LASTEXCPFROM_SAVE_OFFSET: usize = BR_TO_SAVE_OFFSET + 0x8;

/// Offset of `lastexcpto` within the State-Save Area.
pub const LASTEXCPTO_SAVE_OFFSET: usize = LASTEXCPFROM_SAVE_OFFSET + 0x8;

/// Offset of `dbgextnctl` within the State-Save Area.
pub const DBGEXTNCTL_SAVE_OFFSET: usize = LASTEXCPTO_SAVE_OFFSET + 0x8;

/// Offset of the reserved range at `0x2a0` within the State-Save Area.
pub const RESERVED_0X2A0_SAVE_OFFSET: usize = DBGEXTNCTL_SAVE_OFFSET + 0x8;

/// Offset of `spec_ctrl` within the State-Save Area.
pub const SPEC_CTRL_SAVE_OFFSET: usize = RESERVED_0X2A0_SAVE_OFFSET + 0x40;

/// Offset of the reserved range at `0x2e8` within the State-Save Area.
pub const RESERVED_0X2E8_SAVE_OFFSET: usize = SPEC_CTRL_SAVE_OFFSET + 0x8;

/// Offset of `lbr_stack` within the State-Save Area.
pub const LBR_STACK_SAVE_OFFSET: usize = RESERVED_0X2E8_SAVE_OFFSET + 0x388;

/// Offset of `lbr_select` within the State-Save Area.
pub const LBR_SELECT_SAVE_OFFSET: usize = LBR_STACK_SAVE_OFFSET + 0x100;

/// Offset of `ibs_fetch_ctl` within the State-Save Area.
pub const IBS_FETCH_CTL_SAVE_OFFSET: usize = LBR_SELECT_SAVE_OFFSET + 0x8;

/// Offset of `ibs_fetch_linaddr` within the State-Save Area.
pub const IBS_FETCH_LINADDR_SAVE_OFFSET: usize = IBS_FETCH_CTL_SAVE_OFFSET + 0x8;

/// Offset of `ibs_op_ctl` within the State-Save Area.
pub const IBS_OP_CTL_SAVE_OFFSET: usize = IBS_FETCH_LINADDR_SAVE_OFFSET + 0x8;

/// Offset of `ibs_op_rip` within the State-Save Area.
pub const IBS_OP_RIP_SAVE_OFFSET: usize = IBS_OP_CTL_SAVE_OFFSET + 0x8;

/// Offset of `ibs_op_data` within the State-Save Area.
pub const IBS_OP_DATA_SAVE_OFFSET: usize = IBS_OP_RIP_SAVE_OFFSET + 0x8;

/// Offset of `ibs_op_data2` within the State-Save Area.
pub const IBS_OP_DATA2_SAVE_OFFSET: usize = IBS_OP_DATA_SAVE_OFFSET + 0x8;

/// Offset of `ibs_op_data3` within the State-Save Area.
pub const IBS_OP_DATA3_SAVE_OFFSET: usize = IBS_OP_DATA2_SAVE_OFFSET + 0x8;

/// Offset of `ibs_dc_linaddr` within the State-Save Area.
pub const IBS_DC_LINADDR_SAVE_OFFSET: usize = IBS_OP_DATA3_SAVE_OFFSET + 0x8;

/// Offset of `bp_ibstgt_rip` within the State-Save Area.
pub const BP_IBSTGT_RIP_SAVE_OFFSET: usize = IBS_DC_LINADDR_SAVE_OFFSET + 0x8;

/// Offset of `ic_ibst_extd_ctl` within the State-Save Area.
pub const IC_IBST_EXTD_CTL_SAVE_OFFSET: usize = BP_IBSTGT_RIP_SAVE_OFFSET + 0x8;

/// Every State-Save-Area field begins where the previous one ends:
/// the derived offsets stand at their documented values and the
/// fields tile the area's documented size exactly.
pub proof fn lemma_state_save_area_layout()
    ensures
        ES_SAVE_OFFSET == 0x00,
        CS_SAVE_OFFSET == 0x10,
        SS_SAVE_OFFSET == 0x20,
        DS_SAVE_OFFSET == 0x30,
        FS_SAVE_OFFSET == 0x40,
        GS_SAVE_OFFSET == 0x50,
        GDTR_SAVE_OFFSET == 0x60,
        LDTR_SAVE_OFFSET == 0x70,
        IDTR_SAVE_OFFSET == 0x80,
        TR_SAVE_OFFSET == 0x90,
        RESERVED_0XA0_SAVE_OFFSET == 0xA0,
        CPL_SAVE_OFFSET == 0xCB,
        RESERVED_0XCC_SAVE_OFFSET == 0xCC,
        EFER_SAVE_OFFSET == 0xD0,
        RESERVED_0XD8_SAVE_OFFSET == 0xD8,
        PERF_CTL0_SAVE_OFFSET == 0xE0,
        PERF_CTR0_SAVE_OFFSET == 0xE8,
        PERF_CTL1_SAVE_OFFSET == 0xF0,
        PERF_CTR1_SAVE_OFFSET == 0xF8,
        PERF_CTL2_SAVE_OFFSET == 0x100,
        PERF_CTR2_SAVE_OFFSET == 0x108,
        PERF_CTL3_SAVE_OFFSET == 0x110,
        PERF_CTR3_SAVE_OFFSET == 0x118,
        PERF_CTL4_SAVE_OFFSET == 0x120,
        PERF_CTR4_SAVE_OFFSET == 0x128,
        PERF_CTL5_SAVE_OFFSET == 0x130,
        PERF_CTR5_SAVE_OFFSET == 0x138,
        RESERVED_0X140_SAVE_OFFSET == 0x140,
        CR4_SAVE_OFFSET == 0x148,
        CR3_SAVE_OFFSET == 0x150,
        CR0_SAVE_OFFSET == 0x158,
        DR7_SAVE_OFFSET == 0x160,
        DR6_SAVE_OFFSET == 0x168,
        RFLAGS_SAVE_OFFSET == 0x170,
        RIP_SAVE_OFFSET == 0x178,
        RESERVED_0X180_SAVE_OFFSET == 0x180,
        INSTR_RETIRED_CTR_SAVE_OFFSET == 0x1B8,
        PERF_CTR_GLOBAL_STS_SAVE_OFFSET == 0x1C0,
        PERF_CTR_GLOBAL_CTL_SAVE_OFFSET == 0x1C8,
        RESERVED_0X1D0_SAVE_OFFSET == 0x1D0,
        RSP_SAVE_OFFSET == 0x1D8,
        S_CET_SAVE_OFFSET == 0x1E0,
        SSP_SAVE_OFFSET == 0x1E8,
        ISST_ADDR_SAVE_OFFSET == 0x1F0,
        RAX_SAVE_OFFSET == 0x1F8,
        STAR_SAVE_OFFSET == 0x200,
        LSTAR_SAVE_OFFSET == 0x208,
        CSTAR_SAVE_OFFSET == 0x210,
        SFMASK_SAVE_OFFSET == 0x218,
        KERNEL_GS_BASE_SAVE_OFFSET == 0x220,
        SYSENTER_CS_SAVE_OFFSET == 0x228,
        SYSENTER_ESP_SAVE_OFFSET == 0x230,
        SYSENTER_EIP_SAVE_OFFSET == 0x238,
        CR2_SAVE_OFFSET == 0x240,
        RESERVED_0X248_SAVE_OFFSET == 0x248,
        G_PAT_SAVE_OFFSET == 0x268,
        DBGCTL_SAVE_OFFSET == 0x270,
        BR_FROM_SAVE_OFFSET == 0x278,
        BR_TO_SAVE_OFFSET == 0x280,
        LASTEXCPFROM_SAVE_OFFSET == 0x288,
        LASTEXCPTO_SAVE_OFFSET == 0x290,
        DBGEXTNCTL_SAVE_OFFSET == 0x298,
        RESERVED_0X2A0_SAVE_OFFSET == 0x2A0,
        SPEC_CTRL_SAVE_OFFSET == 0x2E0,
        RESERVED_0X2E8_SAVE_OFFSET == 0x2E8,
        LBR_STACK_SAVE_OFFSET == 0x670,
        LBR_SELECT_SAVE_OFFSET == 0x770,
        IBS_FETCH_CTL_SAVE_OFFSET == 0x778,
        IBS_FETCH_LINADDR_SAVE_OFFSET == 0x780,
        IBS_OP_CTL_SAVE_OFFSET == 0x788,
        IBS_OP_RIP_SAVE_OFFSET == 0x790,
        IBS_OP_DATA_SAVE_OFFSET == 0x798,
        IBS_OP_DATA2_SAVE_OFFSET == 0x7A0,
        IBS_OP_DATA3_SAVE_OFFSET == 0x7A8,
        IBS_DC_LINADDR_SAVE_OFFSET == 0x7B0,
        BP_IBSTGT_RIP_SAVE_OFFSET == 0x7B8,
        IC_IBST_EXTD_CTL_SAVE_OFFSET == 0x7C0,
        IC_IBST_EXTD_CTL_SAVE_OFFSET + 0x8 == STATE_SAVE_AREA_SIZE,
        STATE_SAVE_AREA_OFFSET + STATE_SAVE_AREA_SIZE <= PAGE_SIZE,
{
}

} // verus!
