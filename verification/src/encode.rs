//! The byte image of the control block: a verified encoder that lays
//! the Control Area and the State-Save Area out exactly as the
//! hardware reads them, little-endian field after field with zeroed
//! reserved gaps, in the order of [`crate::layout`]. The privileged
//! caller copies these bytes into the physical frame before entry.

use vstd::prelude::*;

use crate::layout;
use crate::vmcb::{VmcbControlArea, VmcbRegister, VmcbStateSaveArea};

verus! {

/// The two little-endian bytes of a 16-bit value.
pub open spec fn le16(v: u16) -> Seq<u8> {
    seq![(v % 0x100) as u8, ((v / 0x100) % 0x100) as u8]
}

/// The four little-endian bytes of a 32-bit value.
pub open spec fn le32(v: u32) -> Seq<u8> {
    seq![
        (v % 0x100) as u8,
        ((v / 0x100) % 0x100) as u8,
        ((v / 0x1_0000) % 0x100) as u8,
        ((v / 0x100_0000) % 0x100) as u8,
    ]
}

/// The eight little-endian bytes of a 64-bit value.
pub open spec fn le64(v: u64) -> Seq<u8> {
    seq![
        (v % 0x100) as u8,
        ((v / 0x100) % 0x100) as u8,
        ((v / 0x1_0000) % 0x100) as u8,
        ((v / 0x100_0000) % 0x100) as u8,
        ((v / 0x1_0000_0000) % 0x100) as u8,
        ((v / 0x100_0000_0000) % 0x100) as u8,
        ((v / 0x1_0000_0000_0000) % 0x100) as u8,
        ((v / 0x100_0000_0000_0000) % 0x100) as u8,
    ]
}

/// `n` zero bytes, as a reserved gap reads.
pub open spec fn zeros(n: nat) -> Seq<u8> {
    Seq::new(n, |i: int| 0u8)
}

/// The sixteen bytes of a segment descriptor cache: selector,
/// attributes, limit, base.
pub open spec fn seg_bytes(r: VmcbRegister) -> Seq<u8> {
    le16(r.selector) + le16(r.attrib) + le32(r.limit) + le64(r.base)
}

/// Appends a 16-bit value in little-endian order.
fn push_u16(out: &mut Vec<u8>, v: u16)
    ensures
        final(out)@ == old(out)@ + le16(v),
{
    out.push((v % 0x100) as u8);
    out.push(((v / 0x100) % 0x100) as u8);
    proof {
        assert(out@ =~= old(out)@ + le16(v));
    }
}

/// Appends a 32-bit value in little-endian order.
fn push_u32(out: &mut Vec<u8>, v: u32)
    ensures
        final(out)@ == old(out)@ + le32(v),
{
    out.push((v % 0x100) as u8);
    out.push(((v / 0x100) % 0x100) as u8);
    out.push(((v / 0x1_0000) % 0x100) as u8);
    out.push(((v / 0x100_0000) % 0x100) as u8);
    proof {
        assert(out@ =~= old(out)@ + le32(v));
    }
}

/// Appends a 64-bit value in little-endian order.
fn push_u64(out: &mut Vec<u8>, v: u64)
    ensures
        final(out)@ == old(out)@ + le64(v),
{
    out.push((v % 0x100) as u8);
    out.push(((v / 0x100) % 0x100) as u8);
    out.push(((v / 0x1_0000) % 0x100) as u8);
    out.push(((v / 0x100_0000) % 0x100) as u8);
    out.push(((v / 0x1_0000_0000) % 0x100) as u8);
    out.push(((v / 0x100_0000_0000) % 0x100) as u8);
    out.push(((v / 0x1_0000_0000_0000) % 0x100) as u8);
    out.push(((v / 0x100_0000_0000_0000) % 0x100) as u8);
    proof {
        assert(out@ =~= old(out)@ + le64(v));
    }
}

/// Appends `n` zero bytes, as a reserved gap is written.
fn push_zeros(out: &mut Vec<u8>, n: usize)
    ensures
        final(out)@ == old(out)@ + zeros(n as nat),
{
    let mut i: usize = 0;
    while i < n
        invariant
            i <= n,
            out@ == old(out)@ + zeros(i as nat),
        decreases n - i,
    {
        out.push(0);
        i = i + 1;
        proof {
            assert(out@ =~= old(out)@ + zeros(i as nat));
        }
    }
}

/// Appends an array of bytes as they stand.
fn push_array<const N: usize>(out: &mut Vec<u8>, a: &[u8; N])
    ensures
        final(out)@ == old(out)@ + a@,
{
    let mut i: usize = 0;
    while i < N
        invariant
            i <= N,
            out@ == old(out)@ + a@.subrange(0, i as int),
        decreases N - i,
    {
        out.push(a[i]);
        i = i + 1;
        proof {
            assert(out@ =~= old(out)@ + a@.subrange(0, i as int));
        }
    }
    proof {
        assert(a@.subrange(0, N as int) =~= a@);
    }
}

/// Appends a segment descriptor cache.
fn push_segment(out: &mut Vec<u8>, r: &VmcbRegister)
    ensures
        final(out)@ == old(out)@ + seg_bytes(*r),
{
    push_u16(out, r.selector);
    push_u16(out, r.attrib);
    push_u32(out, r.limit);
    push_u64(out, r.base);
    proof {
        assert(out@ =~= old(out)@ + seg_bytes(*r));
    }
}

/// The lengths of the little-endian images.
pub proof fn lemma_le_lens()
    ensures
        forall|v: u16| (#[trigger] le16(v)).len() == 2,
        forall|v: u32| (#[trigger] le32(v)).len() == 4,
        forall|v: u64| (#[trigger] le64(v)).len() == 8,
        forall|r: VmcbRegister| (#[trigger] seg_bytes(r)).len() == 16,
{
}

/// The byte image of the Control Area, field after field in
/// layout order, with every reserved gap zero.
pub open spec fn spec_control_area_bytes(c: VmcbControlArea) -> Seq<u8> {
    le16(c.intercept_cr_read)
        + le16(c.intercept_cr_write)
        + le16(c.intercept_dr_read)
        + le16(c.intercept_dr_write)
        + le32(c.intercept_exception)
        + le32(c.intercept_vector3.spec_bits())
        + le32(c.intercept_vector4.spec_bits())
        + le32(c.intercept_vector5.spec_bits())
        + zeros(36)
        + le16(c.pause_filter_threshold)
        + le16(c.pause_filter_count)
        + le64(c.iopm_base_pa)
        + le64(c.msrpm_base_pa)
        + le64(c.tsc_offset)
        + le64(c.guest.spec_bits())
        + le64(c.vm_interrupt_control_flags.spec_bits())
        + le64(c.vm_shadow_interrupt.spec_bits())
        + le64(c.exit.spec_exit_code())
        + le64(c.exit.spec_exit_info_1())
        + le64(c.exit.spec_exit_info_2())
        + le64(c.exit.spec_exit_init_info())
        + le64(c.nested_paging_flags.spec_bits())
        + le64(c.avic_control_flags.spec_bits())
        + le64(c.ghcb_pa)
        + le64(c.event_injection)
        + le64(c.n_cr3)
        + le64(c.lbr_virtualization_flags.spec_bits())
        + le64(c.clean_bits.spec_bits())
        + le64(c.n_rip)
        + seq![c.instruction_fetch_count.number_of_bytes_fetched] + c.instruction_fetch_count.guest_instruction_bytes@
        + le64(c.avic_backing_page_pointer.spec_bits())
        + zeros(8)
        + le64(c.avic_logical_backing_page_pointer.spec_bits())
        + le64(c.avic_physical_backing_page_pointer.spec_bits())
        + zeros(8)
        + le64(c.vmsa_pointer.spec_bits())
        + le64(c.vmgexit_rax)
        + seq![c.vmgexit_cpl]
        + zeros(7)
        + le16(c.bus_lock_threshold_counter)
        + zeros(17)
        + c.update_irr@
        + le64(c.sev_features_mask.spec_bits())
        + le64(c.guest_sev_features.spec_bits())
        + zeros(8)
        + c.requested_irr@
        + zeros(624)
        + zeros(32)
}

impl VmcbControlArea {
    /// Encodes the area exactly as the hardware reads it; the
    /// privileged caller copies these bytes into the physical
    /// frame.
    pub fn to_bytes(&self) -> (r: Vec<u8>)
        ensures
            r@ == spec_control_area_bytes(*self),
            r@.len() == layout::CONTROL_AREA_SIZE,
    {
        let mut out: Vec<u8> = Vec::new();
        push_u16(&mut out, self.intercept_cr_read);
        proof {
            assert(out@ =~= le16(self.intercept_cr_read));
        }
        push_u16(&mut out, self.intercept_cr_write);
        push_u16(&mut out, self.intercept_dr_read);
        push_u16(&mut out, self.intercept_dr_write);
        push_u32(&mut out, self.intercept_exception);
        push_u32(&mut out, self.intercept_vector3.0.bits());
        push_u32(&mut out, self.intercept_vector4.0.bits());
        push_u32(&mut out, self.intercept_vector5.0.bits());
        push_zeros(&mut out, 0x24);
        push_u16(&mut out, self.pause_filter_threshold);
        push_u16(&mut out, self.pause_filter_count);
        push_u64(&mut out, self.iopm_base_pa);
        push_u64(&mut out, self.msrpm_base_pa);
        push_u64(&mut out, self.tsc_offset);
        push_u64(&mut out, self.guest.0.bits());
        push_u64(&mut out, self.vm_interrupt_control_flags.0.bits());
        push_u64(&mut out, self.vm_shadow_interrupt.0.bits());
        push_u64(&mut out, self.exit.exit_code());
        push_u64(&mut out, self.exit.exit_info_1());
        push_u64(&mut out, self.exit.exit_info_2());
        push_u64(&mut out, self.exit.exit_init_info());
        push_u64(&mut out, self.nested_paging_flags.0.bits());
        push_u64(&mut out, self.avic_control_flags.0.bits());
        push_u64(&mut out, self.ghcb_pa);
        push_u64(&mut out, self.event_injection);
        push_u64(&mut out, self.n_cr3);
        push_u64(&mut out, self.lbr_virtualization_flags.0.bits());
        push_u64(&mut out, self.clean_bits.0.bits());
        push_u64(&mut out, self.n_rip);
        out.push(self.instruction_fetch_count.number_of_bytes_fetched);
        push_array(&mut out, &self.instruction_fetch_count.guest_instruction_bytes);
        push_u64(&mut out, self.avic_backing_page_pointer.0.bits());
        push_zeros(&mut out, 0x8);
        push_u64(&mut out, self.avic_logical_backing_page_pointer.0.bits());
        push_u64(&mut out, self.avic_physical_backing_page_pointer.0.bits());
        push_zeros(&mut out, 0x8);
        push_u64(&mut out, self.vmsa_pointer.0.bits());
        push_u64(&mut out, self.vmgexit_rax);
        out.push(self.vmgexit_cpl);
        push_zeros(&mut out, 0x7);
        push_u16(&mut out, self.bus_lock_threshold_counter);
        push_zeros(&mut out, 0x11);
        push_array(&mut out, &self.update_irr);
        push_u64(&mut out, self.sev_features_mask.0.bits());
        push_u64(&mut out, self.guest_sev_features.0.bits());
        push_zeros(&mut out, 0x8);
        push_array(&mut out, &self.requested_irr);
        push_zeros(&mut out, 0x270);
        push_zeros(&mut out, 0x20);
        proof {
            lemma_control_area_bytes_len(*self);
        }
        out
    }
}

/// The encoded Control Area has its documented total size.
#[verifier::rlimit(100)]
pub proof fn lemma_control_area_bytes_len(c: VmcbControlArea)
    ensures
        spec_control_area_bytes(c).len() == layout::CONTROL_AREA_SIZE,
{
    lemma_le_lens();
}
/// The byte image of the State-Save Area, field after field in
/// layout order, with every reserved gap zero.
pub open spec fn spec_state_save_area_bytes(s: VmcbStateSaveArea) -> Seq<u8> {
    seg_bytes(s.es)
        + seg_bytes(s.cs)
        + seg_bytes(s.ss)
        + seg_bytes(s.ds)
        + seg_bytes(s.fs)
        + seg_bytes(s.gs)
        + seg_bytes(s.gdtr)
        + seg_bytes(s.ldtr)
        + seg_bytes(s.idtr)
        + seg_bytes(s.tr)
        + zeros(43)
        + seq![s.cpl]
        + zeros(4)
        + le64(s.efer)
        + zeros(8)
        + le64(s.perf_ctl0)
        + le64(s.perf_ctr0)
        + le64(s.perf_ctl1)
        + le64(s.perf_ctr1)
        + le64(s.perf_ctl2)
        + le64(s.perf_ctr2)
        + le64(s.perf_ctl3)
        + le64(s.perf_ctr3)
        + le64(s.perf_ctl4)
        + le64(s.perf_ctr4)
        + le64(s.perf_ctl5)
        + le64(s.perf_ctr5)
        + zeros(8)
        + le64(s.cr4)
        + le64(s.cr3)
        + le64(s.cr0)
        + le64(s.dr7)
        + le64(s.dr6)
        + le64(s.rflags)
        + le64(s.rip)
        + zeros(56)
        + le64(s.instr_retired_ctr)
        + le64(s.perf_ctr_global_sts)
        + le64(s.perf_ctr_global_ctl)
        + zeros(8)
        + le64(s.rsp)
        + le64(s.s_cet)
        + le64(s.ssp)
        + le64(s.isst_addr)
        + le64(s.rax)
        + le64(s.star)
        + le64(s.lstar)
        + le64(s.cstar)
        + le64(s.sfmask)
        + le64(s.kernel_gs_base)
        + le64(s.sysenter_cs)
        + le64(s.sysenter_esp)
        + le64(s.sysenter_eip)
        + le64(s.cr2)
        + zeros(32)
        + le64(s.g_pat)
        + le64(s.dbgctl)
        + le64(s.br_from)
        + le64(s.br_to)
        + le64(s.lastexcpfrom)
        + le64(s.lastexcpto)
        + le64(s.dbgextnctl)
        + zeros(64)
        + le64(s.spec_ctrl)
        + zeros(904)
        + s.lbr_stack@
        + le64(s.lbr_select)
        + le64(s.ibs_fetch_ctl)
        + le64(s.ibs_fetch_linaddr)
        + le64(s.ibs_op_ctl)
        + le64(s.ibs_op_rip)
        + le64(s.ibs_op_data)
        + le64(s.ibs_op_data2)
        + le64(s.ibs_op_data3)
        + le64(s.ibs_dc_linaddr)
        + le64(s.bp_ibstgt_rip)
        + le64(s.ic_ibst_extd_ctl)
}

impl VmcbStateSaveArea {
    /// Encodes the area exactly as the hardware reads it; the
    /// privileged caller copies these bytes into the physical
    /// frame.
    #[verifier::rlimit(100)]
    pub fn to_bytes(&self) -> (r: Vec<u8>)
        ensures
            r@ == spec_state_save_area_bytes(*self),
            r@.len() == layout::STATE_SAVE_AREA_SIZE,
    {
        let mut out: Vec<u8> = Vec::new();
        push_segment(&mut out, &self.es);
        proof {
            assert(out@ =~= seg_bytes(self.es));
        }
        push_segment(&mut out, &self.cs);
        push_segment(&mut out, &self.ss);
        push_segment(&mut out, &self.ds);
        push_segment(&mut out, &self.fs);
        push_segment(&mut out, &self.gs);
        push_segment(&mut out, &self.gdtr);
        push_segment(&mut out, &self.ldtr);
        push_segment(&mut out, &self.idtr);
        push_segment(&mut out, &self.tr);
        push_zeros(&mut out, 0x2B);
        out.push(self.cpl);
        push_zeros(&mut out, 0x4);
        push_u64(&mut out, self.efer);
        push_zeros(&mut out, 0x8);
        push_u64(&mut out, self.perf_ctl0);
        push_u64(&mut out, self.perf_ctr0);
        push_u64(&mut out, self.perf_ctl1);
        push_u64(&mut out, self.perf_ctr1);
        push_u64(&mut out, self.perf_ctl2);
        push_u64(&mut out, self.perf_ctr2);
        push_u64(&mut out, self.perf_ctl3);
        push_u64(&mut out, self.perf_ctr3);
        push_u64(&mut out, self.perf_ctl4);
        push_u64(&mut out, self.perf_ctr4);
        push_u64(&mut out, self.perf_ctl5);
        push_u64(&mut out, self.perf_ctr5);
        push_zeros(&mut out, 0x8);
        push_u64(&mut out, self.cr4);
        push_u64(&mut out, self.cr3);
        push_u64(&mut out, self.cr0);
        push_u64(&mut out, self.dr7);
        push_u64(&mut out, self.dr6);
        push_u64(&mut out, self.rflags);
        push_u64(&mut out, self.rip);
        push_zeros(&mut out, 0x38);
        push_u64(&mut out, self.instr_retired_ctr);
        push_u64(&mut out, self.perf_ctr_global_sts);
        push_u64(&mut out, self.perf_ctr_global_ctl);
        push_zeros(&mut out, 0x8);
        push_u64(&mut out, self.rsp);
        push_u64(&mut out, self.s_cet);
        push_u64(&mut out, self.ssp);
        push_u64(&mut out, self.isst_addr);
        push_u64(&mut out, self.rax);
        push_u64(&mut out, self.star);
        push_u64(&mut out, self.lstar);
        push_u64(&mut out, self.cstar);
        push_u64(&mut out, self.sfmask);
        push_u64(&mut out, self.kernel_gs_base);
        push_u64(&mut out, self.sysenter_cs);
        push_u64(&mut out, self.sysenter_esp);
        push_u64(&mut out, self.sysenter_eip);
        push_u64(&mut out, self.cr2);
        push_zeros(&mut out, 0x20);
        push_u64(&mut out, self.g_pat);
        push_u64(&mut out, self.dbgctl);
        push_u64(&mut out, self.br_from);
        push_u64(&mut out, self.br_to);
        push_u64(&mut out, self.lastexcpfrom);
        push_u64(&mut out, self.lastexcpto);
        push_u64(&mut out, self.dbgextnctl);
        push_zeros(&mut out, 0x40);
        push_u64(&mut out, self.spec_ctrl);
        push_zeros(&mut out, 0x388);
        push_array(&mut out, &self.lbr_stack);
        push_u64(&mut out, self.lbr_select);
        push_u64(&mut out, self.ibs_fetch_ctl);
        push_u64(&mut out, self.ibs_fetch_linaddr);
        push_u64(&mut out, self.ibs_op_ctl);
        push_u64(&mut out, self.ibs_op_rip);
        push_u64(&mut out, self.ibs_op_data);
        push_u64(&mut out, self.ibs_op_data2);
        push_u64(&mut out, self.ibs_op_data3);
        push_u64(&mut out, self.ibs_dc_linaddr);
        push_u64(&mut out, self.bp_ibstgt_rip);
        push_u64(&mut out, self.ic_ibst_extd_ctl);
        proof {
            lemma_state_save_area_bytes_len(*self);
        }
        out
    }
}

/// The encoded State-Save Area has its documented total size.
#[verifier::rlimit(100)]
pub proof fn lemma_state_save_area_bytes_len(s: VmcbStateSaveArea)
    ensures
        spec_state_save_area_bytes(s).len() == layout::STATE_SAVE_AREA_SIZE,
{
    lemma_le_lens();
}

#[verifier::rlimit(100)]
proof fn lemma_guest_exit_code_placement(c: VmcbControlArea)
    ensures
        spec_control_area_bytes(c).subrange(
            layout::GUEST_OFFSET as int,
            layout::GUEST_OFFSET as int + 8,
        ) =~= le64(c.guest.spec_bits()),
        spec_control_area_bytes(c).subrange(
            layout::EXIT_CODE_OFFSET as int,
            layout::EXIT_CODE_OFFSET as int + 8,
        ) =~= le64(c.exit.spec_exit_code()),
{
    lemma_le_lens();
}

#[verifier::rlimit(100)]
proof fn lemma_exit_info_1_placement(c: VmcbControlArea)
    ensures
        spec_control_area_bytes(c).subrange(
            layout::EXIT_INFO_1_OFFSET as int,
            layout::EXIT_INFO_1_OFFSET as int + 8,
        ) =~= le64(c.exit.spec_exit_info_1()),
{
    lemma_le_lens();
}

#[verifier::rlimit(100)]
proof fn lemma_exit_info_2_placement(c: VmcbControlArea)
    ensures
        spec_control_area_bytes(c).subrange(
            layout::EXIT_INFO_2_OFFSET as int,
            layout::EXIT_INFO_2_OFFSET as int + 8,
        ) =~= le64(c.exit.spec_exit_info_2()),
{
    lemma_le_lens();
}

/// The encoder and the layout table agree on the words the
/// hypervisor reads back after an exit: the guest-identification word
/// and the hardware-written exit fields stand exactly at their
/// documented offsets in the encoded Control Area.
pub proof fn lemma_control_bytes_exit_placement(c: VmcbControlArea)
    ensures
        spec_control_area_bytes(c).subrange(
            layout::GUEST_OFFSET as int,
            layout::GUEST_OFFSET as int + 8,
        ) =~= le64(c.guest.spec_bits()),
        spec_control_area_bytes(c).subrange(
            layout::EXIT_CODE_OFFSET as int,
            layout::EXIT_CODE_OFFSET as int + 8,
        ) =~= le64(c.exit.spec_exit_code()),
        spec_control_area_bytes(c).subrange(
            layout::EXIT_INFO_1_OFFSET as int,
            layout::EXIT_INFO_1_OFFSET as int + 8,
        ) =~= le64(c.exit.spec_exit_info_1()),
        spec_control_area_bytes(c).subrange(
            layout::EXIT_INFO_2_OFFSET as int,
            layout::EXIT_INFO_2_OFFSET as int + 8,
        ) =~= le64(c.exit.spec_exit_info_2()),
{
    lemma_guest_exit_code_placement(c);
    lemma_exit_info_1_placement(c);
    lemma_exit_info_2_placement(c);
}

} // verus!
