//! The Virtual Machine Control Block: the hardware-defined Control Area
//! and State-Save Area that govern one guest context.
//!
//! Field offsets are fixed by the hardware specification (see
//! [`crate::layout`]); bit-packed words are modeled as a single
//! fixed-width integer behind shift/mask accessors, as the hardware
//! reads them. Reserved bit ranges must be written as zero; each
//! packed word carries a `wf` predicate saying so, every constructor
//! establishes it and every documented mutator preserves it.

use vstd::prelude::*;

use crate::fields::{
    lemma_get_zero32, lemma_get_zero64, spec_get_bits32, spec_get_bits64, spec_mask64, spec_set_bits32, spec_set_bits64, PackedWord32, PackedWord64,
};

verus! {

/// Intercept vector at offset `0x0C` of the Control Area: interrupt,
/// descriptor-table and single-instruction intercept bits, one bit per
/// intercepted event.
#[derive(Clone, Copy, Debug, PartialEq, Eq, Structural)]
pub struct VmcbInterceptVector3(pub PackedWord32);

impl VmcbInterceptVector3 {
    /// The raw packed word.
    pub open spec fn spec_bits(self) -> u32 {
        self.0.spec_bits()
    }

    /// Every bit of this word is a defined field; there are no
    /// reserved bits.
    pub open spec fn wf(self) -> bool {
        true
    }

    /// The all-zero reset word.
    pub fn new() -> (r: Self)
        ensures
            r.spec_bits() == 0,
            r.wf(),
    {
        VmcbInterceptVector3(PackedWord32::zero())
    }

    /// Physical INTR (bit 0).
    pub fn intercept_intr(&self) -> (r: bool)
        ensures
            r == (spec_get_bits32(self.spec_bits(), 0, 1) == 1),
    {
        self.0.bit(0)
    }

    /// Selects whether the hardware intercepts physical INTR (bit 0).
    pub fn set_intercept_intr(&mut self, v: bool)
        ensures
            final(self).spec_bits() == spec_set_bits32(
                old(self).spec_bits(),
                0,
                1,
                (if v {
                    1u32
                } else {
                    0u32
                }),
            ),
            (spec_get_bits32(final(self).spec_bits(), 0, 1) == 1) == v,
    {
        self.0.set_bit(0, v);
    }

    /// Physical NMI (bit 1).
    pub fn intercept_nmi(&self) -> (r: bool)
        ensures
            r == (spec_get_bits32(self.spec_bits(), 1, 1) == 1),
    {
        self.0.bit(1)
    }

    /// Selects whether the hardware intercepts physical NMI (bit 1).
    pub fn set_intercept_nmi(&mut self, v: bool)
        ensures
            final(self).spec_bits() == spec_set_bits32(
                old(self).spec_bits(),
                1,
                1,
                (if v {
                    1u32
                } else {
                    0u32
                }),
            ),
            (spec_get_bits32(final(self).spec_bits(), 1, 1) == 1) == v,
    {
        self.0.set_bit(1, v);
    }

    /// Physical SMI (bit 2).
    pub fn intercept_smi(&self) -> (r: bool)
        ensures
            r == (spec_get_bits32(self.spec_bits(), 2, 1) == 1),
    {
        self.0.bit(2)
    }

    /// Selects whether the hardware intercepts physical SMI (bit 2).
    pub fn set_intercept_smi(&mut self, v: bool)
        ensures
            final(self).spec_bits() == spec_set_bits32(
                old(self).spec_bits(),
                2,
                1,
                (if v {
                    1u32
                } else {
                    0u32
                }),
            ),
            (spec_get_bits32(final(self).spec_bits(), 2, 1) == 1) == v,
    {
        self.0.set_bit(2, v);
    }

    /// Physical INIT (bit 3).
    pub fn intercept_init(&self) -> (r: bool)
        ensures
            r == (spec_get_bits32(self.spec_bits(), 3, 1) == 1),
    {
        self.0.bit(3)
    }

    /// Selects whether the hardware intercepts physical INIT (bit 3).
    pub fn set_intercept_init(&mut self, v: bool)
        ensures
            final(self).spec_bits() == spec_set_bits32(
                old(self).spec_bits(),
                3,
                1,
                (if v {
                    1u32
                } else {
                    0u32
                }),
            ),
            (spec_get_bits32(final(self).spec_bits(), 3, 1) == 1) == v,
    {
        self.0.set_bit(3, v);
    }

    /// Virtual INTR (bit 4).
    pub fn intercept_vintr(&self) -> (r: bool)
        ensures
            r == (spec_get_bits32(self.spec_bits(), 4, 1) == 1),
    {
        self.0.bit(4)
    }

    /// Selects whether the hardware intercepts virtual INTR (bit 4).
    pub fn set_intercept_vintr(&mut self, v: bool)
        ensures
            final(self).spec_bits() == spec_set_bits32(
                old(self).spec_bits(),
                4,
                1,
                (if v {
                    1u32
                } else {
                    0u32
                }),
            ),
            (spec_get_bits32(final(self).spec_bits(), 4, 1) == 1) == v,
    {
        self.0.set_bit(4, v);
    }

    /// CR0 writes that change bits other than CR0.TS or CR0.MP (bit 5).
    pub fn intercept_cr0_writes(&self) -> (r: bool)
        ensures
            r == (spec_get_bits32(self.spec_bits(), 5, 1) == 1),
    {
        self.0.bit(5)
    }

    /// Selects whether the hardware intercepts CR0 writes that change bits other than CR0.TS or CR0.MP (bit 5).
    pub fn set_intercept_cr0_writes(&mut self, v: bool)
        ensures
            final(self).spec_bits() == spec_set_bits32(
                old(self).spec_bits(),
                5,
                1,
                (if v {
                    1u32
                } else {
                    0u32
                }),
            ),
            (spec_get_bits32(final(self).spec_bits(), 5, 1) == 1) == v,
    {
        self.0.set_bit(5, v);
    }

    /// IDTR reads (bit 6).
    pub fn intercept_idtr_reads(&self) -> (r: bool)
        ensures
            r == (spec_get_bits32(self.spec_bits(), 6, 1) == 1),
    {
        self.0.bit(6)
    }

    /// Selects whether the hardware intercepts IDTR reads (bit 6).
    pub fn set_intercept_idtr_reads(&mut self, v: bool)
        ensures
            final(self).spec_bits() == spec_set_bits32(
                old(self).spec_bits(),
                6,
                1,
                (if v {
                    1u32
                } else {
                    0u32
                }),
            ),
            (spec_get_bits32(final(self).spec_bits(), 6, 1) == 1) == v,
    {
        self.0.set_bit(6, v);
    }

    /// GDTR reads (bit 7).
    pub fn intercept_gdtr_reads(&self) -> (r: bool)
        ensures
            r == (spec_get_bits32(self.spec_bits(), 7, 1) == 1),
    {
        self.0.bit(7)
    }

    /// Selects whether the hardware intercepts GDTR reads (bit 7).
    pub fn set_intercept_gdtr_reads(&mut self, v: bool)
        ensures
            final(self).spec_bits() == spec_set_bits32(
                old(self).spec_bits(),
                7,
                1,
                (if v {
                    1u32
                } else {
                    0u32
                }),
            ),
            (spec_get_bits32(final(self).spec_bits(), 7, 1) == 1) == v,
    {
        self.0.set_bit(7, v);
    }

    /// LDTR reads (bit 8).
    pub fn intercept_ldtr_reads(&self) -> (r: bool)
        ensures
            r == (spec_get_bits32(self.spec_bits(), 8, 1) == 1),
    {
        self.0.bit(8)
    }

    /// Selects whether the hardware intercepts LDTR reads (bit 8).
    pub fn set_intercept_ldtr_reads(&mut self, v: bool)
        ensures
            final(self).spec_bits() == spec_set_bits32(
                old(self).spec_bits(),
                8,
                1,
                (if v {
                    1u32
                } else {
                    0u32
                }),
            ),
            (spec_get_bits32(final(self).spec_bits(), 8, 1) == 1) == v,
    {
        self.0.set_bit(8, v);
    }

    /// TR reads (bit 9).
    pub fn intercept_tr_reads(&self) -> (r: bool)
        ensures
            r == (spec_get_bits32(self.spec_bits(), 9, 1) == 1),
    {
        self.0.bit(9)
    }

    /// Selects whether the hardware intercepts TR reads (bit 9).
    pub fn set_intercept_tr_reads(&mut self, v: bool)
        ensures
            final(self).spec_bits() == spec_set_bits32(
                old(self).spec_bits(),
                9,
                1,
                (if v {
                    1u32
                } else {
                    0u32
                }),
            ),
            (spec_get_bits32(final(self).spec_bits(), 9, 1) == 1) == v,
    {
        self.0.set_bit(9, v);
    }

    /// IDTR writes (bit 10).
    pub fn intercept_idtr_writes(&self) -> (r: bool)
        ensures
            r == (spec_get_bits32(self.spec_bits(), 10, 1) == 1),
    {
        self.0.bit(10)
    }

    /// Selects whether the hardware intercepts IDTR writes (bit 10).
    pub fn set_intercept_idtr_writes(&mut self, v: bool)
        ensures
            final(self).spec_bits() == spec_set_bits32(
                old(self).spec_bits(),
                10,
                1,
                (if v {
                    1u32
                } else {
                    0u32
                }),
            ),
            (spec_get_bits32(final(self).spec_bits(), 10, 1) == 1) == v,
    {
        self.0.set_bit(10, v);
    }

    /// GDTR writes (bit 11).
    pub fn intercept_gdtr_writes(&self) -> (r: bool)
        ensures
            r == (spec_get_bits32(self.spec_bits(), 11, 1) == 1),
    {
        self.0.bit(11)
    }

    /// Selects whether the hardware intercepts GDTR writes (bit 11).
    pub fn set_intercept_gdtr_writes(&mut self, v: bool)
        ensures
            final(self).spec_bits() == spec_set_bits32(
                old(self).spec_bits(),
                11,
                1,
                (if v {
                    1u32
                } else {
                    0u32
                }),
            ),
            (spec_get_bits32(final(self).spec_bits(), 11, 1) == 1) == v,
    {
        self.0.set_bit(11, v);
    }

    /// LDTR writes (bit 12).
    pub fn intercept_ldtr_writes(&self) -> (r: bool)
        ensures
            r == (spec_get_bits32(self.spec_bits(), 12, 1) == 1),
    {
        self.0.bit(12)
    }

    /// Selects whether the hardware intercepts LDTR writes (bit 12).
    pub fn set_intercept_ldtr_writes(&mut self, v: bool)
        ensures
            final(self).spec_bits() == spec_set_bits32(
                old(self).spec_bits(),
                12,
                1,
                (if v {
                    1u32
                } else {
                    0u32
                }),
            ),
            (spec_get_bits32(final(self).spec_bits(), 12, 1) == 1) == v,
    {
        self.0.set_bit(12, v);
    }

    /// TR writes (bit 13).
    pub fn intercept_tr_writes(&self) -> (r: bool)
        ensures
            r == (spec_get_bits32(self.spec_bits(), 13, 1) == 1),
    {
        self.0.bit(13)
    }

    /// Selects whether the hardware intercepts TR writes (bit 13).
    pub fn set_intercept_tr_writes(&mut self, v: bool)
        ensures
            final(self).spec_bits() == spec_set_bits32(
                old(self).spec_bits(),
                13,
                1,
                (if v {
                    1u32
                } else {
                    0u32
                }),
            ),
            (spec_get_bits32(final(self).spec_bits(), 13, 1) == 1) == v,
    {
        self.0.set_bit(13, v);
    }

    /// The RDTSC instruction (bit 14).
    pub fn intercept_rdtsc(&self) -> (r: bool)
        ensures
            r == (spec_get_bits32(self.spec_bits(), 14, 1) == 1),
    {
        self.0.bit(14)
    }

    /// Selects whether the hardware intercepts the RDTSC instruction (bit 14).
    pub fn set_intercept_rdtsc(&mut self, v: bool)
        ensures
            final(self).spec_bits() == spec_set_bits32(
                old(self).spec_bits(),
                14,
                1,
                (if v {
                    1u32
                } else {
                    0u32
                }),
            ),
            (spec_get_bits32(final(self).spec_bits(), 14, 1) == 1) == v,
    {
        self.0.set_bit(14, v);
    }

    /// The RDPMC instruction (bit 15).
    pub fn intercept_rdpmc(&self) -> (r: bool)
        ensures
            r == (spec_get_bits32(self.spec_bits(), 15, 1) == 1),
    {
        self.0.bit(15)
    }

    /// Selects whether the hardware intercepts the RDPMC instruction (bit 15).
    pub fn set_intercept_rdpmc(&mut self, v: bool)
        ensures
            final(self).spec_bits() == spec_set_bits32(
                old(self).spec_bits(),
                15,
                1,
                (if v {
                    1u32
                } else {
                    0u32
                }),
            ),
            (spec_get_bits32(final(self).spec_bits(), 15, 1) == 1) == v,
    {
        self.0.set_bit(15, v);
    }

    /// The PUSHF instruction (bit 16).
    pub fn intercept_pushf(&self) -> (r: bool)
        ensures
            r == (spec_get_bits32(self.spec_bits(), 16, 1) == 1),
    {
        self.0.bit(16)
    }

    /// Selects whether the hardware intercepts the PUSHF instruction (bit 16).
    pub fn set_intercept_pushf(&mut self, v: bool)
        ensures
            final(self).spec_bits() == spec_set_bits32(
                old(self).spec_bits(),
                16,
                1,
                (if v {
                    1u32
                } else {
                    0u32
                }),
            ),
            (spec_get_bits32(final(self).spec_bits(), 16, 1) == 1) == v,
    {
        self.0.set_bit(16, v);
    }

    /// The POPF instruction (bit 17).
    pub fn intercept_popf(&self) -> (r: bool)
        ensures
            r == (spec_get_bits32(self.spec_bits(), 17, 1) == 1),
    {
        self.0.bit(17)
    }

    /// Selects whether the hardware intercepts the POPF instruction (bit 17).
    pub fn set_intercept_popf(&mut self, v: bool)
        ensures
            final(self).spec_bits() == spec_set_bits32(
                old(self).spec_bits(),
                17,
                1,
                (if v {
                    1u32
                } else {
                    0u32
                }),
            ),
            (spec_get_bits32(final(self).spec_bits(), 17, 1) == 1) == v,
    {
        self.0.set_bit(17, v);
    }

    /// The CPUID instruction (bit 18).
    pub fn intercept_cpuid(&self) -> (r: bool)
        ensures
            r == (spec_get_bits32(self.spec_bits(), 18, 1) == 1),
    {
        self.0.bit(18)
    }

    /// Selects whether the hardware intercepts the CPUID instruction (bit 18).
    pub fn set_intercept_cpuid(&mut self, v: bool)
        ensures
            final(self).spec_bits() == spec_set_bits32(
                old(self).spec_bits(),
                18,
                1,
                (if v {
                    1u32
                } else {
                    0u32
                }),
            ),
            (spec_get_bits32(final(self).spec_bits(), 18, 1) == 1) == v,
    {
        self.0.set_bit(18, v);
    }

    /// The RSM instruction (bit 19).
    pub fn intercept_rsm(&self) -> (r: bool)
        ensures
            r == (spec_get_bits32(self.spec_bits(), 19, 1) == 1),
    {
        self.0.bit(19)
    }

    /// Selects whether the hardware intercepts the RSM instruction (bit 19).
    pub fn set_intercept_rsm(&mut self, v: bool)
        ensures
            final(self).spec_bits() == spec_set_bits32(
                old(self).spec_bits(),
                19,
                1,
                (if v {
                    1u32
                } else {
                    0u32
                }),
            ),
            (spec_get_bits32(final(self).spec_bits(), 19, 1) == 1) == v,
    {
        self.0.set_bit(19, v);
    }

    /// The IRET instruction (bit 20).
    pub fn intercept_iret(&self) -> (r: bool)
        ensures
            r == (spec_get_bits32(self.spec_bits(), 20, 1) == 1),
    {
        self.0.bit(20)
    }

    /// Selects whether the hardware intercepts the IRET instruction (bit 20).
    pub fn set_intercept_iret(&mut self, v: bool)
        ensures
            final(self).spec_bits() == spec_set_bits32(
                old(self).spec_bits(),
                20,
                1,
                (if v {
                    1u32
                } else {
                    0u32
                }),
            ),
            (spec_get_bits32(final(self).spec_bits(), 20, 1) == 1) == v,
    {
        self.0.set_bit(20, v);
    }

    /// The INTn instruction (bit 21).
    pub fn intercept_intn(&self) -> (r: bool)
        ensures
            r == (spec_get_bits32(self.spec_bits(), 21, 1) == 1),
    {
        self.0.bit(21)
    }

    /// Selects whether the hardware intercepts the INTn instruction (bit 21).
    pub fn set_intercept_intn(&mut self, v: bool)
        ensures
            final(self).spec_bits() == spec_set_bits32(
                old(self).spec_bits(),
                21,
                1,
                (if v {
                    1u32
                } else {
                    0u32
                }),
            ),
            (spec_get_bits32(final(self).spec_bits(), 21, 1) == 1) == v,
    {
        self.0.set_bit(21, v);
    }

    /// The INVD instruction (bit 22).
    pub fn intercept_invd(&self) -> (r: bool)
        ensures
            r == (spec_get_bits32(self.spec_bits(), 22, 1) == 1),
    {
        self.0.bit(22)
    }

    /// Selects whether the hardware intercepts the INVD instruction (bit 22).
    pub fn set_intercept_invd(&mut self, v: bool)
        ensures
            final(self).spec_bits() == spec_set_bits32(
                old(self).spec_bits(),
                22,
                1,
                (if v {
                    1u32
                } else {
                    0u32
                }),
            ),
            (spec_get_bits32(final(self).spec_bits(), 22, 1) == 1) == v,
    {
        self.0.set_bit(22, v);
    }

    /// The PAUSE instruction (bit 23).
    pub fn intercept_pause(&self) -> (r: bool)
        ensures
            r == (spec_get_bits32(self.spec_bits(), 23, 1) == 1),
    {
        self.0.bit(23)
    }

    /// Selects whether the hardware intercepts the PAUSE instruction (bit 23).
    pub fn set_intercept_pause(&mut self, v: bool)
        ensures
            final(self).spec_bits() == spec_set_bits32(
                old(self).spec_bits(),
                23,
                1,
                (if v {
                    1u32
                } else {
                    0u32
                }),
            ),
            (spec_get_bits32(final(self).spec_bits(), 23, 1) == 1) == v,
    {
        self.0.set_bit(23, v);
    }

    /// The HLT instruction (bit 24).
    pub fn intercept_hlt(&self) -> (r: bool)
        ensures
            r == (spec_get_bits32(self.spec_bits(), 24, 1) == 1),
    {
        self.0.bit(24)
    }

    /// Selects whether the hardware intercepts the HLT instruction (bit 24).
    pub fn set_intercept_hlt(&mut self, v: bool)
        ensures
            final(self).spec_bits() == spec_set_bits32(
                old(self).spec_bits(),
                24,
                1,
                (if v {
                    1u32
                } else {
                    0u32
                }),
            ),
            (spec_get_bits32(final(self).spec_bits(), 24, 1) == 1) == v,
    {
        self.0.set_bit(24, v);
    }

    /// The INVLPG instruction (bit 25).
    pub fn intercept_invlpg(&self) -> (r: bool)
        ensures
            r == (spec_get_bits32(self.spec_bits(), 25, 1) == 1),
    {
        self.0.bit(25)
    }

    /// Selects whether the hardware intercepts the INVLPG instruction (bit 25).
    pub fn set_intercept_invlpg(&mut self, v: bool)
        ensures
            final(self).spec_bits() == spec_set_bits32(
                old(self).spec_bits(),
                25,
                1,
                (if v {
                    1u32
                } else {
                    0u32
                }),
            ),
            (spec_get_bits32(final(self).spec_bits(), 25, 1) == 1) == v,
    {
        self.0.set_bit(25, v);
    }

    /// The INVLPGA instruction (bit 26).
    pub fn intercept_invlpga(&self) -> (r: bool)
        ensures
            r == (spec_get_bits32(self.spec_bits(), 26, 1) == 1),
    {
        self.0.bit(26)
    }

    /// Selects whether the hardware intercepts the INVLPGA instruction (bit 26).
    pub fn set_intercept_invlpga(&mut self, v: bool)
        ensures
            final(self).spec_bits() == spec_set_bits32(
                old(self).spec_bits(),
                26,
                1,
                (if v {
                    1u32
                } else {
                    0u32
                }),
            ),
            (spec_get_bits32(final(self).spec_bits(), 26, 1) == 1) == v,
    {
        self.0.set_bit(26, v);
    }

    /// Selected I/O port accesses (bit 27).
    pub fn intercept_ioio_prot(&self) -> (r: bool)
        ensures
            r == (spec_get_bits32(self.spec_bits(), 27, 1) == 1),
    {
        self.0.bit(27)
    }

    /// Selects whether the hardware intercepts selected I/O port accesses (bit 27).
    pub fn set_intercept_ioio_prot(&mut self, v: bool)
        ensures
            final(self).spec_bits() == spec_set_bits32(
                old(self).spec_bits(),
                27,
                1,
                (if v {
                    1u32
                } else {
                    0u32
                }),
            ),
            (spec_get_bits32(final(self).spec_bits(), 27, 1) == 1) == v,
    {
        self.0.set_bit(27, v);
    }

    /// Selected MSR accesses (bit 28).
    pub fn intercept_msr_prot(&self) -> (r: bool)
        ensures
            r == (spec_get_bits32(self.spec_bits(), 28, 1) == 1),
    {
        self.0.bit(28)
    }

    /// Selects whether the hardware intercepts selected MSR accesses (bit 28).
    pub fn set_intercept_msr_prot(&mut self, v: bool)
        ensures
            final(self).spec_bits() == spec_set_bits32(
                old(self).spec_bits(),
                28,
                1,
                (if v {
                    1u32
                } else {
                    0u32
                }),
            ),
            (spec_get_bits32(final(self).spec_bits(), 28, 1) == 1) == v,
    {
        self.0.set_bit(28, v);
    }

    /// Task switches (bit 29).
    pub fn intercept_task_switch(&self) -> (r: bool)
        ensures
            r == (spec_get_bits32(self.spec_bits(), 29, 1) == 1),
    {
        self.0.bit(29)
    }

    /// Selects whether the hardware intercepts task switches (bit 29).
    pub fn set_intercept_task_switch(&mut self, v: bool)
        ensures
            final(self).spec_bits() == spec_set_bits32(
                old(self).spec_bits(),
                29,
                1,
                (if v {
                    1u32
                } else {
                    0u32
                }),
            ),
            (spec_get_bits32(final(self).spec_bits(), 29, 1) == 1) == v,
    {
        self.0.set_bit(29, v);
    }

    /// Processor freezing during legacy FERR handling (bit 30).
    pub fn intercept_ferr_freeze(&self) -> (r: bool)
        ensures
            r == (spec_get_bits32(self.spec_bits(), 30, 1) == 1),
    {
        self.0.bit(30)
    }

    /// Selects whether the hardware intercepts processor freezing during legacy FERR handling (bit 30).
    pub fn set_intercept_ferr_freeze(&mut self, v: bool)
        ensures
            final(self).spec_bits() == spec_set_bits32(
                old(self).spec_bits(),
                30,
                1,
                (if v {
                    1u32
                } else {
                    0u32
                }),
            ),
            (spec_get_bits32(final(self).spec_bits(), 30, 1) == 1) == v,
    {
        self.0.set_bit(30, v);
    }

    /// Shutdown events (bit 31).
    pub fn intercept_shutdown_event(&self) -> (r: bool)
        ensures
            r == (spec_get_bits32(self.spec_bits(), 31, 1) == 1),
    {
        self.0.bit(31)
    }

    /// Selects whether the hardware intercepts shutdown events (bit 31).
    pub fn set_intercept_shutdown_event(&mut self, v: bool)
        ensures
            final(self).spec_bits() == spec_set_bits32(
                old(self).spec_bits(),
                31,
                1,
                (if v {
                    1u32
                } else {
                    0u32
                }),
            ),
            (spec_get_bits32(final(self).spec_bits(), 31, 1) == 1) == v,
    {
        self.0.set_bit(31, v);
    }
}

/// Intercept vector at offset `0x10` of the Control Area: SVM
/// instructions, selected control-register writes and debug-register
/// accesses, one bit per intercepted event.
#[derive(Clone, Copy, Debug, PartialEq, Eq, Structural)]
pub struct VmcbInterceptVector4(pub PackedWord32);

impl VmcbInterceptVector4 {
    /// The raw packed word.
    pub open spec fn spec_bits(self) -> u32 {
        self.0.spec_bits()
    }

    /// Every bit of this word is a defined field; there are no
    /// reserved bits.
    pub open spec fn wf(self) -> bool {
        true
    }

    /// The all-zero reset word.
    pub fn new() -> (r: Self)
        ensures
            r.spec_bits() == 0,
            r.wf(),
    {
        VmcbInterceptVector4(PackedWord32::zero())
    }

    /// The VMRUN instruction (bit 0).
    pub fn intercept_vmrun(&self) -> (r: bool)
        ensures
            r == (spec_get_bits32(self.spec_bits(), 0, 1) == 1),
    {
        self.0.bit(0)
    }

    /// Selects whether the hardware intercepts the VMRUN instruction (bit 0).
    pub fn set_intercept_vmrun(&mut self, v: bool)
        ensures
            final(self).spec_bits() == spec_set_bits32(
                old(self).spec_bits(),
                0,
                1,
                (if v {
                    1u32
                } else {
                    0u32
                }),
            ),
            (spec_get_bits32(final(self).spec_bits(), 0, 1) == 1) == v,
    {
        self.0.set_bit(0, v);
    }

    /// The VMMCALL instruction (bit 1).
    pub fn intercept_vmmcall(&self) -> (r: bool)
        ensures
            r == (spec_get_bits32(self.spec_bits(), 1, 1) == 1),
    {
        self.0.bit(1)
    }

    /// Selects whether the hardware intercepts the VMMCALL instruction (bit 1).
    pub fn set_intercept_vmmcall(&mut self, v: bool)
        ensures
            final(self).spec_bits() == spec_set_bits32(
                old(self).spec_bits(),
                1,
                1,
                (if v {
                    1u32
                } else {
                    0u32
                }),
            ),
            (spec_get_bits32(final(self).spec_bits(), 1, 1) == 1) == v,
    {
        self.0.set_bit(1, v);
    }

    /// The VMLOAD instruction (bit 2).
    pub fn intercept_vmload(&self) -> (r: bool)
        ensures
            r == (spec_get_bits32(self.spec_bits(), 2, 1) == 1),
    {
        self.0.bit(2)
    }

    /// Selects whether the hardware intercepts the VMLOAD instruction (bit 2).
    pub fn set_intercept_vmload(&mut self, v: bool)
        ensures
            final(self).spec_bits() == spec_set_bits32(
                old(self).spec_bits(),
                2,
                1,
                (if v {
                    1u32
                } else {
                    0u32
                }),
            ),
            (spec_get_bits32(final(self).spec_bits(), 2, 1) == 1) == v,
    {
        self.0.set_bit(2, v);
    }

    /// The VMSAVE instruction (bit 3).
    pub fn intercept_vmsave(&self) -> (r: bool)
        ensures
            r == (spec_get_bits32(self.spec_bits(), 3, 1) == 1),
    {
        self.0.bit(3)
    }

    /// Selects whether the hardware intercepts the VMSAVE instruction (bit 3).
    pub fn set_intercept_vmsave(&mut self, v: bool)
        ensures
            final(self).spec_bits() == spec_set_bits32(
                old(self).spec_bits(),
                3,
                1,
                (if v {
                    1u32
                } else {
                    0u32
                }),
            ),
            (spec_get_bits32(final(self).spec_bits(), 3, 1) == 1) == v,
    {
        self.0.set_bit(3, v);
    }

    /// The STGI instruction (bit 4).
    pub fn intercept_stgi(&self) -> (r: bool)
        ensures
            r == (spec_get_bits32(self.spec_bits(), 4, 1) == 1),
    {
        self.0.bit(4)
    }

    /// Selects whether the hardware intercepts the STGI instruction (bit 4).
    pub fn set_intercept_stgi(&mut self, v: bool)
        ensures
            final(self).spec_bits() == spec_set_bits32(
                old(self).spec_bits(),
                4,
                1,
                (if v {
                    1u32
                } else {
                    0u32
                }),
            ),
            (spec_get_bits32(final(self).spec_bits(), 4, 1) == 1) == v,
    {
        self.0.set_bit(4, v);
    }

    /// The CLGI instruction (bit 5).
    pub fn intercept_clgi(&self) -> (r: bool)
        ensures
            r == (spec_get_bits32(self.spec_bits(), 5, 1) == 1),
    {
        self.0.bit(5)
    }

    /// Selects whether the hardware intercepts the CLGI instruction (bit 5).
    pub fn set_intercept_clgi(&mut self, v: bool)
        ensures
            final(self).spec_bits() == spec_set_bits32(
                old(self).spec_bits(),
                5,
                1,
                (if v {
                    1u32
                } else {
                    0u32
                }),
            ),
            (spec_get_bits32(final(self).spec_bits(), 5, 1) == 1) == v,
    {
        self.0.set_bit(5, v);
    }

    /// The SKINIT instruction (bit 6).
    pub fn intercept_skinit(&self) -> (r: bool)
        ensures
            r == (spec_get_bits32(self.spec_bits(), 6, 1) == 1),
    {
        self.0.bit(6)
    }

    /// Selects whether the hardware intercepts the SKINIT instruction (bit 6).
    pub fn set_intercept_skinit(&mut self, v: bool)
        ensures
            final(self).spec_bits() == spec_set_bits32(
                old(self).spec_bits(),
                6,
                1,
                (if v {
                    1u32
                } else {
                    0u32
                }),
            ),
            (spec_get_bits32(final(self).spec_bits(), 6, 1) == 1) == v,
    {
        self.0.set_bit(6, v);
    }

    /// The RDTSCP instruction (bit 7).
    pub fn intercept_rdtscp(&self) -> (r: bool)
        ensures
            r == (spec_get_bits32(self.spec_bits(), 7, 1) == 1),
    {
        self.0.bit(7)
    }

    /// Selects whether the hardware intercepts the RDTSCP instruction (bit 7).
    pub fn set_intercept_rdtscp(&mut self, v: bool)
        ensures
            final(self).spec_bits() == spec_set_bits32(
                old(self).spec_bits(),
                7,
                1,
                (if v {
                    1u32
                } else {
                    0u32
                }),
            ),
            (spec_get_bits32(final(self).spec_bits(), 7, 1) == 1) == v,
    {
        self.0.set_bit(7, v);
    }

    /// The ICEBP instruction (bit 8).
    pub fn intercept_icebp(&self) -> (r: bool)
        ensures
            r == (spec_get_bits32(self.spec_bits(), 8, 1) == 1),
    {
        self.0.bit(8)
    }

    /// Selects whether the hardware intercepts the ICEBP instruction (bit 8).
    pub fn set_intercept_icebp(&mut self, v: bool)
        ensures
            final(self).spec_bits() == spec_set_bits32(
                old(self).spec_bits(),
                8,
                1,
                (if v {
                    1u32
                } else {
                    0u32
                }),
            ),
            (spec_get_bits32(final(self).spec_bits(), 8, 1) == 1) == v,
    {
        self.0.set_bit(8, v);
    }

    /// WBINVD and WBNOINVD (bit 9).
    pub fn intercept_wbinvd_wbnoinvd(&self) -> (r: bool)
        ensures
            r == (spec_get_bits32(self.spec_bits(), 9, 1) == 1),
    {
        self.0.bit(9)
    }

    /// Selects whether the hardware intercepts WBINVD and WBNOINVD (bit 9).
    pub fn set_intercept_wbinvd_wbnoinvd(&mut self, v: bool)
        ensures
            final(self).spec_bits() == spec_set_bits32(
                old(self).spec_bits(),
                9,
                1,
                (if v {
                    1u32
                } else {
                    0u32
                }),
            ),
            (spec_get_bits32(final(self).spec_bits(), 9, 1) == 1) == v,
    {
        self.0.set_bit(9, v);
    }

    /// MONITOR and MONITORX (bit 10).
    pub fn intercept_monitor(&self) -> (r: bool)
        ensures
            r == (spec_get_bits32(self.spec_bits(), 10, 1) == 1),
    {
        self.0.bit(10)
    }

    /// Selects whether the hardware intercepts MONITOR and MONITORX (bit 10).
    pub fn set_intercept_monitor(&mut self, v: bool)
        ensures
            final(self).spec_bits() == spec_set_bits32(
                old(self).spec_bits(),
                10,
                1,
                (if v {
                    1u32
                } else {
                    0u32
                }),
            ),
            (spec_get_bits32(final(self).spec_bits(), 10, 1) == 1) == v,
    {
        self.0.set_bit(10, v);
    }

    /// MWAIT and MWAITX, unconditionally (bit 11).
    pub fn intercept_mwait(&self) -> (r: bool)
        ensures
            r == (spec_get_bits32(self.spec_bits(), 11, 1) == 1),
    {
        self.0.bit(11)
    }

    /// Selects whether the hardware intercepts MWAIT and MWAITX, unconditionally (bit 11).
    pub fn set_intercept_mwait(&mut self, v: bool)
        ensures
            final(self).spec_bits() == spec_set_bits32(
                old(self).spec_bits(),
                11,
                1,
                (if v {
                    1u32
                } else {
                    0u32
                }),
            ),
            (spec_get_bits32(final(self).spec_bits(), 11, 1) == 1) == v,
    {
        self.0.set_bit(11, v);
    }

    /// MWAIT and MWAITX if monitor hardware is armed (bit 12).
    pub fn intercept_mwait_hw_armed(&self) -> (r: bool)
        ensures
            r == (spec_get_bits32(self.spec_bits(), 12, 1) == 1),
    {
        self.0.bit(12)
    }

    /// Selects whether the hardware intercepts MWAIT and MWAITX if monitor hardware is armed (bit 12).
    pub fn set_intercept_mwait_hw_armed(&mut self, v: bool)
        ensures
            final(self).spec_bits() == spec_set_bits32(
                old(self).spec_bits(),
                12,
                1,
                (if v {
                    1u32
                } else {
                    0u32
                }),
            ),
            (spec_get_bits32(final(self).spec_bits(), 12, 1) == 1) == v,
    {
        self.0.set_bit(12, v);
    }

    /// The XSETBV instruction (bit 13).
    pub fn intercept_xsetbv(&self) -> (r: bool)
        ensures
            r == (spec_get_bits32(self.spec_bits(), 13, 1) == 1),
    {
        self.0.bit(13)
    }

    /// Selects whether the hardware intercepts the XSETBV instruction (bit 13).
    pub fn set_intercept_xsetbv(&mut self, v: bool)
        ensures
            final(self).spec_bits() == spec_set_bits32(
                old(self).spec_bits(),
                13,
                1,
                (if v {
                    1u32
                } else {
                    0u32
                }),
            ),
            (spec_get_bits32(final(self).spec_bits(), 13, 1) == 1) == v,
    {
        self.0.set_bit(13, v);
    }

    /// The RDPRU instruction (bit 14).
    pub fn intercept_rdpru(&self) -> (r: bool)
        ensures
            r == (spec_get_bits32(self.spec_bits(), 14, 1) == 1),
    {
        self.0.bit(14)
    }

    /// Selects whether the hardware intercepts the RDPRU instruction (bit 14).
    pub fn set_intercept_rdpru(&mut self, v: bool)
        ensures
            final(self).spec_bits() == spec_set_bits32(
                old(self).spec_bits(),
                14,
                1,
                (if v {
                    1u32
                } else {
                    0u32
                }),
            ),
            (spec_get_bits32(final(self).spec_bits(), 14, 1) == 1) == v,
    {
        self.0.set_bit(14, v);
    }

    /// EFER writes, after guest instruction finishes (bit 15).
    pub fn intercept_efer_writes(&self) -> (r: bool)
        ensures
            r == (spec_get_bits32(self.spec_bits(), 15, 1) == 1),
    {
        self.0.bit(15)
    }

    /// Selects whether the hardware intercepts EFER writes, after guest instruction finishes (bit 15).
    pub fn set_intercept_efer_writes(&mut self, v: bool)
        ensures
            final(self).spec_bits() == spec_set_bits32(
                old(self).spec_bits(),
                15,
                1,
                (if v {
                    1u32
                } else {
                    0u32
                }),
            ),
            (spec_get_bits32(final(self).spec_bits(), 15, 1) == 1) == v,
    {
        self.0.set_bit(15, v);
    }

    /// CR0 writes, after guest instruction finishes (bit 16).
    pub fn intercept_cr0(&self) -> (r: bool)
        ensures
            r == (spec_get_bits32(self.spec_bits(), 16, 1) == 1),
    {
        self.0.bit(16)
    }

    /// Selects whether the hardware intercepts CR0 writes, after guest instruction finishes (bit 16).
    pub fn set_intercept_cr0(&mut self, v: bool)
        ensures
            final(self).spec_bits() == spec_set_bits32(
                old(self).spec_bits(),
                16,
                1,
                (if v {
                    1u32
                } else {
                    0u32
                }),
            ),
            (spec_get_bits32(final(self).spec_bits(), 16, 1) == 1) == v,
    {
        self.0.set_bit(16, v);
    }

    /// CR1 writes, after guest instruction finishes (bit 17).
    pub fn intercept_cr1(&self) -> (r: bool)
        ensures
            r == (spec_get_bits32(self.spec_bits(), 17, 1) == 1),
    {
        self.0.bit(17)
    }

    /// Selects whether the hardware intercepts CR1 writes, after guest instruction finishes (bit 17).
    pub fn set_intercept_cr1(&mut self, v: bool)
        ensures
            final(self).spec_bits() == spec_set_bits32(
                old(self).spec_bits(),
                17,
                1,
                (if v {
                    1u32
                } else {
                    0u32
                }),
            ),
            (spec_get_bits32(final(self).spec_bits(), 17, 1) == 1) == v,
    {
        self.0.set_bit(17, v);
    }

    /// CR2 writes, after guest instruction finishes (bit 18).
    pub fn intercept_cr2(&self) -> (r: bool)
        ensures
            r == (spec_get_bits32(self.spec_bits(), 18, 1) == 1),
    {
        self.0.bit(18)
    }

    /// Selects whether the hardware intercepts CR2 writes, after guest instruction finishes (bit 18).
    pub fn set_intercept_cr2(&mut self, v: bool)
        ensures
            final(self).spec_bits() == spec_set_bits32(
                old(self).spec_bits(),
                18,
                1,
                (if v {
                    1u32
                } else {
                    0u32
                }),
            ),
            (spec_get_bits32(final(self).spec_bits(), 18, 1) == 1) == v,
    {
        self.0.set_bit(18, v);
    }

    /// CR3 writes, after guest instruction finishes (bit 19).
    pub fn intercept_cr3(&self) -> (r: bool)
        ensures
            r == (spec_get_bits32(self.spec_bits(), 19, 1) == 1),
    {
        self.0.bit(19)
    }

    /// Selects whether the hardware intercepts CR3 writes, after guest instruction finishes (bit 19).
    pub fn set_intercept_cr3(&mut self, v: bool)
        ensures
            final(self).spec_bits() == spec_set_bits32(
                old(self).spec_bits(),
                19,
                1,
                (if v {
                    1u32
                } else {
                    0u32
                }),
            ),
            (spec_get_bits32(final(self).spec_bits(), 19, 1) == 1) == v,
    {
        self.0.set_bit(19, v);
    }

    /// CR4 writes, after guest instruction finishes (bit 20).
    pub fn intercept_cr4(&self) -> (r: bool)
        ensures
            r == (spec_get_bits32(self.spec_bits(), 20, 1) == 1),
    {
        self.0.bit(20)
    }

    /// Selects whether the hardware intercepts CR4 writes, after guest instruction finishes (bit 20).
    pub fn set_intercept_cr4(&mut self, v: bool)
        ensures
            final(self).spec_bits() == spec_set_bits32(
                old(self).spec_bits(),
                20,
                1,
                (if v {
                    1u32
                } else {
                    0u32
                }),
            ),
            (spec_get_bits32(final(self).spec_bits(), 20, 1) == 1) == v,
    {
        self.0.set_bit(20, v);
    }

    /// CR5 writes, after guest instruction finishes (bit 21).
    pub fn intercept_cr5(&self) -> (r: bool)
        ensures
            r == (spec_get_bits32(self.spec_bits(), 21, 1) == 1),
    {
        self.0.bit(21)
    }

    /// Selects whether the hardware intercepts CR5 writes, after guest instruction finishes (bit 21).
    pub fn set_intercept_cr5(&mut self, v: bool)
        ensures
            final(self).spec_bits() == spec_set_bits32(
                old(self).spec_bits(),
                21,
                1,
                (if v {
                    1u32
                } else {
                    0u32
                }),
            ),
            (spec_get_bits32(final(self).spec_bits(), 21, 1) == 1) == v,
    {
        self.0.set_bit(21, v);
    }

    /// CR6 writes, after guest instruction finishes (bit 22).
    pub fn intercept_cr6(&self) -> (r: bool)
        ensures
            r == (spec_get_bits32(self.spec_bits(), 22, 1) == 1),
    {
        self.0.bit(22)
    }

    /// Selects whether the hardware intercepts CR6 writes, after guest instruction finishes (bit 22).
    pub fn set_intercept_cr6(&mut self, v: bool)
        ensures
            final(self).spec_bits() == spec_set_bits32(
                old(self).spec_bits(),
                22,
                1,
                (if v {
                    1u32
                } else {
                    0u32
                }),
            ),
            (spec_get_bits32(final(self).spec_bits(), 22, 1) == 1) == v,
    {
        self.0.set_bit(22, v);
    }

    /// CR7 writes, after guest instruction finishes (bit 23).
    pub fn intercept_cr7(&self) -> (r: bool)
        ensures
            r == (spec_get_bits32(self.spec_bits(), 23, 1) == 1),
    {
        self.0.bit(23)
    }

    /// Selects whether the hardware intercepts CR7 writes, after guest instruction finishes (bit 23).
    pub fn set_intercept_cr7(&mut self, v: bool)
        ensures
            final(self).spec_bits() == spec_set_bits32(
                old(self).spec_bits(),
                23,
                1,
                (if v {
                    1u32
                } else {
                    0u32
                }),
            ),
            (spec_get_bits32(final(self).spec_bits(), 23, 1) == 1) == v,
    {
        self.0.set_bit(23, v);
    }

    /// DR8 accesses (bit 24).
    pub fn intercept_dr8(&self) -> (r: bool)
        ensures
            r == (spec_get_bits32(self.spec_bits(), 24, 1) == 1),
    {
        self.0.bit(24)
    }

    /// Selects whether the hardware intercepts DR8 accesses (bit 24).
    pub fn set_intercept_dr8(&mut self, v: bool)
        ensures
            final(self).spec_bits() == spec_set_bits32(
                old(self).spec_bits(),
                24,
                1,
                (if v {
                    1u32
                } else {
                    0u32
                }),
            ),
            (spec_get_bits32(final(self).spec_bits(), 24, 1) == 1) == v,
    {
        self.0.set_bit(24, v);
    }

    /// DR9 accesses (bit 25).
    pub fn intercept_dr9(&self) -> (r: bool)
        ensures
            r == (spec_get_bits32(self.spec_bits(), 25, 1) == 1),
    {
        self.0.bit(25)
    }

    /// Selects whether the hardware intercepts DR9 accesses (bit 25).
    pub fn set_intercept_dr9(&mut self, v: bool)
        ensures
            final(self).spec_bits() == spec_set_bits32(
                old(self).spec_bits(),
                25,
                1,
                (if v {
                    1u32
                } else {
                    0u32
                }),
            ),
            (spec_get_bits32(final(self).spec_bits(), 25, 1) == 1) == v,
    {
        self.0.set_bit(25, v);
    }

    /// DR10 accesses (bit 26).
    pub fn intercept_dr10(&self) -> (r: bool)
        ensures
            r == (spec_get_bits32(self.spec_bits(), 26, 1) == 1),
    {
        self.0.bit(26)
    }

    /// Selects whether the hardware intercepts DR10 accesses (bit 26).
    pub fn set_intercept_dr10(&mut self, v: bool)
        ensures
            final(self).spec_bits() == spec_set_bits32(
                old(self).spec_bits(),
                26,
                1,
                (if v {
                    1u32
                } else {
                    0u32
                }),
            ),
            (spec_get_bits32(final(self).spec_bits(), 26, 1) == 1) == v,
    {
        self.0.set_bit(26, v);
    }

    /// DR11 accesses (bit 27).
    pub fn intercept_dr11(&self) -> (r: bool)
        ensures
            r == (spec_get_bits32(self.spec_bits(), 27, 1) == 1),
    {
        self.0.bit(27)
    }

    /// Selects whether the hardware intercepts DR11 accesses (bit 27).
    pub fn set_intercept_dr11(&mut self, v: bool)
        ensures
            final(self).spec_bits() == spec_set_bits32(
                old(self).spec_bits(),
                27,
                1,
                (if v {
                    1u32
                } else {
                    0u32
                }),
            ),
            (spec_get_bits32(final(self).spec_bits(), 27, 1) == 1) == v,
    {
        self.0.set_bit(27, v);
    }

    /// DR12 accesses (bit 28).
    pub fn intercept_dr12(&self) -> (r: bool)
        ensures
            r == (spec_get_bits32(self.spec_bits(), 28, 1) == 1),
    {
        self.0.bit(28)
    }

    /// Selects whether the hardware intercepts DR12 accesses (bit 28).
    pub fn set_intercept_dr12(&mut self, v: bool)
        ensures
            final(self).spec_bits() == spec_set_bits32(
                old(self).spec_bits(),
                28,
                1,
                (if v {
                    1u32
                } else {
                    0u32
                }),
            ),
            (spec_get_bits32(final(self).spec_bits(), 28, 1) == 1) == v,
    {
        self.0.set_bit(28, v);
    }

    /// DR13 accesses (bit 29).
    pub fn intercept_dr13(&self) -> (r: bool)
        ensures
            r == (spec_get_bits32(self.spec_bits(), 29, 1) == 1),
    {
        self.0.bit(29)
    }

    /// Selects whether the hardware intercepts DR13 accesses (bit 29).
    pub fn set_intercept_dr13(&mut self, v: bool)
        ensures
            final(self).spec_bits() == spec_set_bits32(
                old(self).spec_bits(),
                29,
                1,
                (if v {
                    1u32
                } else {
                    0u32
                }),
            ),
            (spec_get_bits32(final(self).spec_bits(), 29, 1) == 1) == v,
    {
        self.0.set_bit(29, v);
    }

    /// DR14 accesses (bit 30).
    pub fn intercept_dr14(&self) -> (r: bool)
        ensures
            r == (spec_get_bits32(self.spec_bits(), 30, 1) == 1),
    {
        self.0.bit(30)
    }

    /// Selects whether the hardware intercepts DR14 accesses (bit 30).
    pub fn set_intercept_dr14(&mut self, v: bool)
        ensures
            final(self).spec_bits() == spec_set_bits32(
                old(self).spec_bits(),
                30,
                1,
                (if v {
                    1u32
                } else {
                    0u32
                }),
            ),
            (spec_get_bits32(final(self).spec_bits(), 30, 1) == 1) == v,
    {
        self.0.set_bit(30, v);
    }

    /// DR15 accesses (bit 31).
    pub fn intercept_dr15(&self) -> (r: bool)
        ensures
            r == (spec_get_bits32(self.spec_bits(), 31, 1) == 1),
    {
        self.0.bit(31)
    }

    /// Selects whether the hardware intercepts DR15 accesses (bit 31).
    pub fn set_intercept_dr15(&mut self, v: bool)
        ensures
            final(self).spec_bits() == spec_set_bits32(
                old(self).spec_bits(),
                31,
                1,
                (if v {
                    1u32
                } else {
                    0u32
                }),
            ),
            (spec_get_bits32(final(self).spec_bits(), 31, 1) == 1) == v,
    {
        self.0.set_bit(31, v);
    }
}

/// Intercept vector at offset `0x14` of the Control Area: TLB and
/// page-table maintenance instructions.
#[derive(Clone, Copy, Debug, PartialEq, Eq, Structural)]
pub struct VmcbInterceptVector5(pub PackedWord32);

impl VmcbInterceptVector5 {
    /// The raw packed word.
    pub open spec fn spec_bits(self) -> u32 {
        self.0.spec_bits()
    }

    /// Reserved bit ranges are zero: bits 31:6.
    pub open spec fn wf(self) -> bool {
        spec_get_bits32(self.spec_bits(), 6, 26) == 0
    }

    /// The all-zero reset word.
    pub fn new() -> (r: Self)
        ensures
            r.spec_bits() == 0,
            r.wf(),
    {
        proof {
            lemma_get_zero32(6, 26);
        }
        VmcbInterceptVector5(PackedWord32::zero())
    }

    /// All INVLPGB instructions (bit 0).
    pub fn intercept_invlpgb(&self) -> (r: bool)
        ensures
            r == (spec_get_bits32(self.spec_bits(), 0, 1) == 1),
    {
        self.0.bit(0)
    }

    /// Selects whether the hardware intercepts all INVLPGB instructions (bit 0).
    pub fn set_intercept_invlpgb(&mut self, v: bool)
        ensures
            final(self).spec_bits() == spec_set_bits32(
                old(self).spec_bits(),
                0,
                1,
                (if v {
                    1u32
                } else {
                    0u32
                }),
            ),
            (spec_get_bits32(final(self).spec_bits(), 0, 1) == 1) == v,
            old(self).wf() ==> final(self).wf(),
    {
        self.0.set_bit(0, v);
    }

    /// Illegally specified INVLPGB instructions (bit 1).
    pub fn intercept_illegal_invlpgb(&self) -> (r: bool)
        ensures
            r == (spec_get_bits32(self.spec_bits(), 1, 1) == 1),
    {
        self.0.bit(1)
    }

    /// Selects whether the hardware intercepts illegally specified INVLPGB instructions (bit 1).
    pub fn set_intercept_illegal_invlpgb(&mut self, v: bool)
        ensures
            final(self).spec_bits() == spec_set_bits32(
                old(self).spec_bits(),
                1,
                1,
                (if v {
                    1u32
                } else {
                    0u32
                }),
            ),
            (spec_get_bits32(final(self).spec_bits(), 1, 1) == 1) == v,
            old(self).wf() ==> final(self).wf(),
    {
        self.0.set_bit(1, v);
    }

    /// The INVPCID instruction (bit 2).
    pub fn intercept_invpcid(&self) -> (r: bool)
        ensures
            r == (spec_get_bits32(self.spec_bits(), 2, 1) == 1),
    {
        self.0.bit(2)
    }

    /// Selects whether the hardware intercepts the INVPCID instruction (bit 2).
    pub fn set_intercept_invpcid(&mut self, v: bool)
        ensures
            final(self).spec_bits() == spec_set_bits32(
                old(self).spec_bits(),
                2,
                1,
                (if v {
                    1u32
                } else {
                    0u32
                }),
            ),
            (spec_get_bits32(final(self).spec_bits(), 2, 1) == 1) == v,
            old(self).wf() ==> final(self).wf(),
    {
        self.0.set_bit(2, v);
    }

    /// The MCOMMIT instruction (bit 3).
    pub fn intercept_mcommit(&self) -> (r: bool)
        ensures
            r == (spec_get_bits32(self.spec_bits(), 3, 1) == 1),
    {
        self.0.bit(3)
    }

    /// Selects whether the hardware intercepts the MCOMMIT instruction (bit 3).
    pub fn set_intercept_mcommit(&mut self, v: bool)
        ensures
            final(self).spec_bits() == spec_set_bits32(
                old(self).spec_bits(),
                3,
                1,
                (if v {
                    1u32
                } else {
                    0u32
                }),
            ),
            (spec_get_bits32(final(self).spec_bits(), 3, 1) == 1) == v,
            old(self).wf() ==> final(self).wf(),
    {
        self.0.set_bit(3, v);
    }

    /// TLB invalidation (bit 4).
    pub fn intercept_tlbsync(&self) -> (r: bool)
        ensures
            r == (spec_get_bits32(self.spec_bits(), 4, 1) == 1),
    {
        self.0.bit(4)
    }

    /// Selects whether the hardware intercepts TLB invalidation (bit 4).
    pub fn set_intercept_tlbsync(&mut self, v: bool)
        ensures
            final(self).spec_bits() == spec_set_bits32(
                old(self).spec_bits(),
                4,
                1,
                (if v {
                    1u32
                } else {
                    0u32
                }),
            ),
            (spec_get_bits32(final(self).spec_bits(), 4, 1) == 1) == v,
            old(self).wf() ==> final(self).wf(),
    {
        self.0.set_bit(4, v);
    }

    /// HLT if no virtual interrupt is pending (bit 5).
    pub fn intercept_hlt(&self) -> (r: bool)
        ensures
            r == (spec_get_bits32(self.spec_bits(), 5, 1) == 1),
    {
        self.0.bit(5)
    }

    /// Selects whether the hardware intercepts HLT if no virtual interrupt is pending (bit 5).
    pub fn set_intercept_hlt(&mut self, v: bool)
        ensures
            final(self).spec_bits() == spec_set_bits32(
                old(self).spec_bits(),
                5,
                1,
                (if v {
                    1u32
                } else {
                    0u32
                }),
            ),
            (spec_get_bits32(final(self).spec_bits(), 5, 1) == 1) == v,
            old(self).wf() ==> final(self).wf(),
    {
        self.0.set_bit(5, v);
    }

    /// Reserved bits (bits 31:6); reads back zero while the word is
    /// well formed.
    pub fn reserve(&self) -> (r: u32)
        ensures
            r == spec_get_bits32(self.spec_bits(), 6, 26),
            self.wf() ==> r == 0,
    {
        self.0.field(6, 26)
    }
}

/// Guest identification word at offset `0x58` of the Control Area:
/// the address-space identifier that keys the guest's TLB entries and
/// the TLB-control command for the next entry.
#[derive(Clone, Copy, Debug, PartialEq, Eq, Structural)]
pub struct VmcbGuest(pub PackedWord64);

impl VmcbGuest {
    /// The raw packed word.
    pub open spec fn spec_bits(self) -> u64 {
        self.0.spec_bits()
    }

    /// Reserved bit ranges are zero: bits 63:40.
    pub open spec fn wf(self) -> bool {
        spec_get_bits64(self.spec_bits(), 40, 24) == 0
    }

    /// The all-zero reset word.
    pub fn new() -> (r: Self)
        ensures
            r.spec_bits() == 0,
            r.wf(),
    {
        proof {
            lemma_get_zero64(40, 24);
        }
        VmcbGuest(PackedWord64::zero())
    }

    /// The guest address-space identifier (bits 31:0).
    pub fn guest_asid(&self) -> (r: u64)
        ensures
            r == spec_get_bits64(self.spec_bits(), 0, 32),
    {
        self.0.field(0, 32)
    }

    /// Writes the guest address-space identifier (bits 31:0); only the low 32 bits of `v`
    /// are stored.
    pub fn set_guest_asid(&mut self, v: u64)
        ensures
            final(self).spec_bits() == spec_set_bits64(old(self).spec_bits(), 0, 32, v),
            spec_get_bits64(final(self).spec_bits(), 0, 32) == v & spec_mask64(32),
            v <= spec_mask64(32) ==> spec_get_bits64(final(self).spec_bits(), 0, 32) == v,
            old(self).wf() ==> final(self).wf(),
    {
        self.0.set_field(0, 32, v);
    }

    /// The TLB-control command for the next entry (bits 39:32).
    pub fn tlb_control(&self) -> (r: u64)
        ensures
            r == spec_get_bits64(self.spec_bits(), 32, 8),
    {
        self.0.field(32, 8)
    }

    /// Writes the TLB-control command for the next entry (bits 39:32); only the low 8 bits of `v`
    /// are stored.
    pub fn set_tlb_control(&mut self, v: u64)
        ensures
            final(self).spec_bits() == spec_set_bits64(old(self).spec_bits(), 32, 8, v),
            spec_get_bits64(final(self).spec_bits(), 32, 8) == v & spec_mask64(8),
            v <= spec_mask64(8) ==> spec_get_bits64(final(self).spec_bits(), 32, 8) == v,
            old(self).wf() ==> final(self).wf(),
    {
        self.0.set_field(32, 8, v);
    }

    /// Reserved bits (bits 63:40); reads back zero while the word is
    /// well formed.
    pub fn reserved(&self) -> (r: u64)
        ensures
            r == spec_get_bits64(self.spec_bits(), 40, 24),
            self.wf() ==> r == 0,
    {
        self.0.field(40, 24)
    }
}

/// Virtual-interrupt control word at offset `0x60` of the Control
/// Area.
#[derive(Clone, Copy, Debug, PartialEq, Eq, Structural)]
pub struct VmInterruptControlFlags(pub PackedWord64);

impl VmInterruptControlFlags {
    /// The raw packed word.
    pub open spec fn spec_bits(self) -> u64 {
        self.0.spec_bits()
    }

    /// Reserved bit ranges are zero: bits 7:4, bit 10, bits 15:13, bits 23:21, bits 29:27, bits 63:40.
    pub open spec fn wf(self) -> bool {
        &&& spec_get_bits64(self.spec_bits(), 4, 4) == 0
        &&& spec_get_bits64(self.spec_bits(), 10, 1) == 0
        &&& spec_get_bits64(self.spec_bits(), 13, 3) == 0
        &&& spec_get_bits64(self.spec_bits(), 21, 3) == 0
        &&& spec_get_bits64(self.spec_bits(), 27, 3) == 0
        &&& spec_get_bits64(self.spec_bits(), 40, 24) == 0
    }

    /// The all-zero reset word.
    pub fn new() -> (r: Self)
        ensures
            r.spec_bits() == 0,
            r.wf(),
    {
        proof {
            lemma_get_zero64(4, 4);
            lemma_get_zero64(10, 1);
            lemma_get_zero64(13, 3);
            lemma_get_zero64(21, 3);
            lemma_get_zero64(27, 3);
            lemma_get_zero64(40, 24);
        }
        VmInterruptControlFlags(PackedWord64::zero())
    }

    /// A virtual INTR is pending (bit 8).
    pub fn v_irq(&self) -> (r: bool)
        ensures
            r == (spec_get_bits64(self.spec_bits(), 8, 1) == 1),
    {
        self.0.bit(8)
    }

    /// Writes whether a virtual INTR is pending (bit 8).
    pub fn set_v_irq(&mut self, v: bool)
        ensures
            final(self).spec_bits() == spec_set_bits64(
                old(self).spec_bits(),
                8,
                1,
                (if v {
                    1u64
                } else {
                    0u64
                }),
            ),
            (spec_get_bits64(final(self).spec_bits(), 8, 1) == 1) == v,
            old(self).wf() ==> final(self).wf(),
    {
        self.0.set_bit(8, v);
    }

    /// Virtual interrupts are unmasked (bit 9).
    pub fn vgif(&self) -> (r: bool)
        ensures
            r == (spec_get_bits64(self.spec_bits(), 9, 1) == 1),
    {
        self.0.bit(9)
    }

    /// Writes whether virtual interrupts are unmasked (bit 9).
    pub fn set_vgif(&mut self, v: bool)
        ensures
            final(self).spec_bits() == spec_set_bits64(
                old(self).spec_bits(),
                9,
                1,
                (if v {
                    1u64
                } else {
                    0u64
                }),
            ),
            (spec_get_bits64(final(self).spec_bits(), 9, 1) == 1) == v,
            old(self).wf() ==> final(self).wf(),
    {
        self.0.set_bit(9, v);
    }

    /// A virtual NMI is pending (bit 11).
    pub fn v_nmi(&self) -> (r: bool)
        ensures
            r == (spec_get_bits64(self.spec_bits(), 11, 1) == 1),
    {
        self.0.bit(11)
    }

    /// Writes whether a virtual NMI is pending (bit 11).
    pub fn set_v_nmi(&mut self, v: bool)
        ensures
            final(self).spec_bits() == spec_set_bits64(
                old(self).spec_bits(),
                11,
                1,
                (if v {
                    1u64
                } else {
                    0u64
                }),
            ),
            (spec_get_bits64(final(self).spec_bits(), 11, 1) == 1) == v,
            old(self).wf() ==> final(self).wf(),
    {
        self.0.set_bit(11, v);
    }

    /// Virtual NMIs are masked (bit 12).
    pub fn v_nmi_mask(&self) -> (r: bool)
        ensures
            r == (spec_get_bits64(self.spec_bits(), 12, 1) == 1),
    {
        self.0.bit(12)
    }

    /// Writes whether virtual NMIs are masked (bit 12).
    pub fn set_v_nmi_mask(&mut self, v: bool)
        ensures
            final(self).spec_bits() == spec_set_bits64(
                old(self).spec_bits(),
                12,
                1,
                (if v {
                    1u64
                } else {
                    0u64
                }),
            ),
            (spec_get_bits64(final(self).spec_bits(), 12, 1) == 1) == v,
            old(self).wf() ==> final(self).wf(),
    {
        self.0.set_bit(12, v);
    }

    /// The current virtual interrupt ignores the virtual TPR (bit 20).
    pub fn v_ign_tpr(&self) -> (r: bool)
        ensures
            r == (spec_get_bits64(self.spec_bits(), 20, 1) == 1),
    {
        self.0.bit(20)
    }

    /// Writes whether the current virtual interrupt ignores the virtual TPR (bit 20).
    pub fn set_v_ign_tpr(&mut self, v: bool)
        ensures
            final(self).spec_bits() == spec_set_bits64(
                old(self).spec_bits(),
                20,
                1,
                (if v {
                    1u64
                } else {
                    0u64
                }),
            ),
            (spec_get_bits64(final(self).spec_bits(), 20, 1) == 1) == v,
            old(self).wf() ==> final(self).wf(),
    {
        self.0.set_bit(20, v);
    }

    /// Masking of INTR and RFLAGS.IF is virtualized (bit 24).
    pub fn v_intr_masking(&self) -> (r: bool)
        ensures
            r == (spec_get_bits64(self.spec_bits(), 24, 1) == 1),
    {
        self.0.bit(24)
    }

    /// Writes whether masking of INTR and RFLAGS.IF is virtualized (bit 24).
    pub fn set_v_intr_masking(&mut self, v: bool)
        ensures
            final(self).spec_bits() == spec_set_bits64(
                old(self).spec_bits(),
                24,
                1,
                (if v {
                    1u64
                } else {
                    0u64
                }),
            ),
            (spec_get_bits64(final(self).spec_bits(), 24, 1) == 1) == v,
            old(self).wf() ==> final(self).wf(),
    {
        self.0.set_bit(24, v);
    }

    /// The virtual global-interrupt flag is enabled for this guest (bit 25).
    pub fn v_gif_enabled(&self) -> (r: bool)
        ensures
            r == (spec_get_bits64(self.spec_bits(), 25, 1) == 1),
    {
        self.0.bit(25)
    }

    /// Writes whether the virtual global-interrupt flag is enabled for this guest (bit 25).
    pub fn set_v_gif_enabled(&mut self, v: bool)
        ensures
            final(self).spec_bits() == spec_set_bits64(
                old(self).spec_bits(),
                25,
                1,
                (if v {
                    1u64
                } else {
                    0u64
                }),
            ),
            (spec_get_bits64(final(self).spec_bits(), 25, 1) == 1) == v,
            old(self).wf() ==> final(self).wf(),
    {
        self.0.set_bit(25, v);
    }

    /// NMI virtualization is enabled (bit 26).
    pub fn v_nmi_enable(&self) -> (r: bool)
        ensures
            r == (spec_get_bits64(self.spec_bits(), 26, 1) == 1),
    {
        self.0.bit(26)
    }

    /// Writes whether NMI virtualization is enabled (bit 26).
    pub fn set_v_nmi_enable(&mut self, v: bool)
        ensures
            final(self).spec_bits() == spec_set_bits64(
                old(self).spec_bits(),
                26,
                1,
                (if v {
                    1u64
                } else {
                    0u64
                }),
            ),
            (spec_get_bits64(final(self).spec_bits(), 26, 1) == 1) == v,
            old(self).wf() ==> final(self).wf(),
    {
        self.0.set_bit(26, v);
    }

    /// X2AVIC is enabled (bit 30).
    pub fn x2avic_enable(&self) -> (r: bool)
        ensures
            r == (spec_get_bits64(self.spec_bits(), 30, 1) == 1),
    {
        self.0.bit(30)
    }

    /// Writes whether x2AVIC is enabled (bit 30).
    pub fn set_x2avic_enable(&mut self, v: bool)
        ensures
            final(self).spec_bits() == spec_set_bits64(
                old(self).spec_bits(),
                30,
                1,
                (if v {
                    1u64
                } else {
                    0u64
                }),
            ),
            (spec_get_bits64(final(self).spec_bits(), 30, 1) == 1) == v,
            old(self).wf() ==> final(self).wf(),
    {
        self.0.set_bit(30, v);
    }

    /// AVIC is enabled (bit 31).
    pub fn avic_enable(&self) -> (r: bool)
        ensures
            r == (spec_get_bits64(self.spec_bits(), 31, 1) == 1),
    {
        self.0.bit(31)
    }

    /// Writes whether AVIC is enabled (bit 31).
    pub fn set_avic_enable(&mut self, v: bool)
        ensures
            final(self).spec_bits() == spec_set_bits64(
                old(self).spec_bits(),
                31,
                1,
                (if v {
                    1u64
                } else {
                    0u64
                }),
            ),
            (spec_get_bits64(final(self).spec_bits(), 31, 1) == 1) == v,
            old(self).wf() ==> final(self).wf(),
    {
        self.0.set_bit(31, v);
    }

    /// The virtual task-priority register value (bits 3:0).
    pub fn v_tpr(&self) -> (r: u64)
        ensures
            r == spec_get_bits64(self.spec_bits(), 0, 4),
    {
        self.0.field(0, 4)
    }

    /// Writes the virtual task-priority register value (bits 3:0); only the low 4 bits of `v`
    /// are stored.
    pub fn set_v_tpr(&mut self, v: u64)
        ensures
            final(self).spec_bits() == spec_set_bits64(old(self).spec_bits(), 0, 4, v),
            spec_get_bits64(final(self).spec_bits(), 0, 4) == v & spec_mask64(4),
            v <= spec_mask64(4) ==> spec_get_bits64(final(self).spec_bits(), 0, 4) == v,
            old(self).wf() ==> final(self).wf(),
    {
        self.0.set_field(0, 4, v);
    }

    /// The priority of the pending virtual interrupt (bits 19:16).
    pub fn v_intr_prio(&self) -> (r: u64)
        ensures
            r == spec_get_bits64(self.spec_bits(), 16, 4),
    {
        self.0.field(16, 4)
    }

    /// Writes the priority of the pending virtual interrupt (bits 19:16); only the low 4 bits of `v`
    /// are stored.
    pub fn set_v_intr_prio(&mut self, v: u64)
        ensures
            final(self).spec_bits() == spec_set_bits64(old(self).spec_bits(), 16, 4, v),
            spec_get_bits64(final(self).spec_bits(), 16, 4) == v & spec_mask64(4),
            v <= spec_mask64(4) ==> spec_get_bits64(final(self).spec_bits(), 16, 4) == v,
            old(self).wf() ==> final(self).wf(),
    {
        self.0.set_field(16, 4, v);
    }

    /// The vector to deliver for the virtual interrupt (bits 39:32).
    pub fn v_intr_vector(&self) -> (r: u64)
        ensures
            r == spec_get_bits64(self.spec_bits(), 32, 8),
    {
        self.0.field(32, 8)
    }

    /// Writes the vector to deliver for the virtual interrupt (bits 39:32); only the low 8 bits of `v`
    /// are stored.
    pub fn set_v_intr_vector(&mut self, v: u64)
        ensures
            final(self).spec_bits() == spec_set_bits64(old(self).spec_bits(), 32, 8, v),
            spec_get_bits64(final(self).spec_bits(), 32, 8) == v & spec_mask64(8),
            v <= spec_mask64(8) ==> spec_get_bits64(final(self).spec_bits(), 32, 8) == v,
            old(self).wf() ==> final(self).wf(),
    {
        self.0.set_field(32, 8, v);
    }

    /// Reserved bits above the virtual TPR (bits 7:4); reads back zero while the word is
    /// well formed.
    pub fn reserved_tpr(&self) -> (r: u64)
        ensures
            r == spec_get_bits64(self.spec_bits(), 4, 4),
            self.wf() ==> r == 0,
    {
        self.0.field(4, 4)
    }

    /// The reserved bit after the virtual global-interrupt flag (bit 10); reads back zero while the word is
    /// well formed.
    pub fn reserved_vgif(&self) -> (r: u64)
        ensures
            r == spec_get_bits64(self.spec_bits(), 10, 1),
            self.wf() ==> r == 0,
    {
        self.0.field(10, 1)
    }

    /// Reserved bits after the virtual-NMI flags (bits 15:13); reads back zero while the word is
    /// well formed.
    pub fn reserved_nmi(&self) -> (r: u64)
        ensures
            r == spec_get_bits64(self.spec_bits(), 13, 3),
            self.wf() ==> r == 0,
    {
        self.0.field(13, 3)
    }

    /// Reserved bits after the interrupt priority (bits 23:21); reads back zero while the word is
    /// well formed.
    pub fn reserved_intr(&self) -> (r: u64)
        ensures
            r == spec_get_bits64(self.spec_bits(), 21, 3),
            self.wf() ==> r == 0,
    {
        self.0.field(21, 3)
    }

    /// Reserved bits after the NMI-enable flag (bits 29:27); reads back zero while the word is
    /// well formed.
    pub fn reserved_nmi_enable(&self) -> (r: u64)
        ensures
            r == spec_get_bits64(self.spec_bits(), 27, 3),
            self.wf() ==> r == 0,
    {
        self.0.field(27, 3)
    }

    /// Reserved high bits (bits 63:40); reads back zero while the word is
    /// well formed.
    pub fn reserved(&self) -> (r: u64)
        ensures
            r == spec_get_bits64(self.spec_bits(), 40, 24),
            self.wf() ==> r == 0,
    {
        self.0.field(40, 24)
    }
}

/// Interrupt-shadow word at offset `0x68` of the Control Area.
#[derive(Clone, Copy, Debug, PartialEq, Eq, Structural)]
pub struct VmShadowInterrupt(pub PackedWord64);

impl VmShadowInterrupt {
    /// The raw packed word.
    pub open spec fn spec_bits(self) -> u64 {
        self.0.spec_bits()
    }

    /// Reserved bit ranges are zero: bits 63:2.
    pub open spec fn wf(self) -> bool {
        spec_get_bits64(self.spec_bits(), 2, 62) == 0
    }

    /// The all-zero reset word.
    pub fn new() -> (r: Self)
        ensures
            r.spec_bits() == 0,
            r.wf(),
    {
        proof {
            lemma_get_zero64(2, 62);
        }
        VmShadowInterrupt(PackedWord64::zero())
    }

    /// The guest is in an interrupt shadow (bit 0).
    pub fn interrupt_shadow(&self) -> (r: bool)
        ensures
            r == (spec_get_bits64(self.spec_bits(), 0, 1) == 1),
    {
        self.0.bit(0)
    }

    /// Writes whether the guest is in an interrupt shadow (bit 0).
    pub fn set_interrupt_shadow(&mut self, v: bool)
        ensures
            final(self).spec_bits() == spec_set_bits64(
                old(self).spec_bits(),
                0,
                1,
                (if v {
                    1u64
                } else {
                    0u64
                }),
            ),
            (spec_get_bits64(final(self).spec_bits(), 0, 1) == 1) == v,
            old(self).wf() ==> final(self).wf(),
    {
        self.0.set_bit(0, v);
    }

    /// The value of RFLAGS.IF for the guest (bit 1).
    pub fn guest_interrupt_mask(&self) -> (r: bool)
        ensures
            r == (spec_get_bits64(self.spec_bits(), 1, 1) == 1),
    {
        self.0.bit(1)
    }

    /// Writes whether the value of RFLAGS.IF for the guest (bit 1).
    pub fn set_guest_interrupt_mask(&mut self, v: bool)
        ensures
            final(self).spec_bits() == spec_set_bits64(
                old(self).spec_bits(),
                1,
                1,
                (if v {
                    1u64
                } else {
                    0u64
                }),
            ),
            (spec_get_bits64(final(self).spec_bits(), 1, 1) == 1) == v,
            old(self).wf() ==> final(self).wf(),
    {
        self.0.set_bit(1, v);
    }

    /// Reserved bits (bits 63:2); reads back zero while the word is
    /// well formed.
    pub fn reserved(&self) -> (r: u64)
        ensures
            r == spec_get_bits64(self.spec_bits(), 2, 62),
            self.wf() ==> r == 0,
    {
        self.0.field(2, 62)
    }
}

/// Nested-paging and encryption control word at offset `0x90` of the
/// Control Area.
#[derive(Clone, Copy, Debug, PartialEq, Eq, Structural)]
pub struct NestedPagingFlags(pub PackedWord64);

impl NestedPagingFlags {
    /// The raw packed word.
    pub open spec fn spec_bits(self) -> u64 {
        self.0.spec_bits()
    }

    /// Reserved bit ranges are zero: bits 63:8.
    pub open spec fn wf(self) -> bool {
        spec_get_bits64(self.spec_bits(), 8, 56) == 0
    }

    /// The all-zero reset word.
    pub fn new() -> (r: Self)
        ensures
            r.spec_bits() == 0,
            r.wf(),
    {
        proof {
            lemma_get_zero64(8, 56);
        }
        NestedPagingFlags(PackedWord64::zero())
    }

    /// Nested paging is enabled (bit 0).
    pub fn np_enable(&self) -> (r: bool)
        ensures
            r == (spec_get_bits64(self.spec_bits(), 0, 1) == 1),
    {
        self.0.bit(0)
    }

    /// Writes whether nested paging is enabled (bit 0).
    pub fn set_np_enable(&mut self, v: bool)
        ensures
            final(self).spec_bits() == spec_set_bits64(
                old(self).spec_bits(),
                0,
                1,
                (if v {
                    1u64
                } else {
                    0u64
                }),
            ),
            (spec_get_bits64(final(self).spec_bits(), 0, 1) == 1) == v,
            old(self).wf() ==> final(self).wf(),
    {
        self.0.set_bit(0, v);
    }

    /// Secure encrypted virtualization is enabled (bit 1).
    pub fn enable_sev(&self) -> (r: bool)
        ensures
            r == (spec_get_bits64(self.spec_bits(), 1, 1) == 1),
    {
        self.0.bit(1)
    }

    /// Writes whether secure encrypted virtualization is enabled (bit 1).
    pub fn set_enable_sev(&mut self, v: bool)
        ensures
            final(self).spec_bits() == spec_set_bits64(
                old(self).spec_bits(),
                1,
                1,
                (if v {
                    1u64
                } else {
                    0u64
                }),
            ),
            (spec_get_bits64(final(self).spec_bits(), 1, 1) == 1) == v,
            old(self).wf() ==> final(self).wf(),
    {
        self.0.set_bit(1, v);
    }

    /// The encrypted guest state of secure encrypted virtualization is enabled (bit 2).
    pub fn enable_encrypted_state(&self) -> (r: bool)
        ensures
            r == (spec_get_bits64(self.spec_bits(), 2, 1) == 1),
    {
        self.0.bit(2)
    }

    /// Writes whether the encrypted guest state of secure encrypted virtualization is enabled (bit 2).
    pub fn set_enable_encrypted_state(&mut self, v: bool)
        ensures
            final(self).spec_bits() == spec_set_bits64(
                old(self).spec_bits(),
                2,
                1,
                (if v {
                    1u64
                } else {
                    0u64
                }),
            ),
            (spec_get_bits64(final(self).spec_bits(), 2, 1) == 1) == v,
            old(self).wf() ==> final(self).wf(),
    {
        self.0.set_bit(2, v);
    }

    /// The guest-mode execute trap is enabled (bit 3).
    pub fn guest_mode_execute_trap(&self) -> (r: bool)
        ensures
            r == (spec_get_bits64(self.spec_bits(), 3, 1) == 1),
    {
        self.0.bit(3)
    }

    /// Writes whether the guest-mode execute trap is enabled (bit 3).
    pub fn set_guest_mode_execute_trap(&mut self, v: bool)
        ensures
            final(self).spec_bits() == spec_set_bits64(
                old(self).spec_bits(),
                3,
                1,
                (if v {
                    1u64
                } else {
                    0u64
                }),
            ),
            (spec_get_bits64(final(self).spec_bits(), 3, 1) == 1) == v,
            old(self).wf() ==> final(self).wf(),
    {
        self.0.set_bit(3, v);
    }

    /// Supervisor shadow-stack restrictions are enforced in nested page tables (bit 4).
    pub fn sss_check_en(&self) -> (r: bool)
        ensures
            r == (spec_get_bits64(self.spec_bits(), 4, 1) == 1),
    {
        self.0.bit(4)
    }

    /// Writes whether supervisor shadow-stack restrictions are enforced in nested page tables (bit 4).
    pub fn set_sss_check_en(&mut self, v: bool)
        ensures
            final(self).spec_bits() == spec_set_bits64(
                old(self).spec_bits(),
                4,
                1,
                (if v {
                    1u64
                } else {
                    0u64
                }),
            ),
            (spec_get_bits64(final(self).spec_bits(), 4, 1) == 1) == v,
            old(self).wf() ==> final(self).wf(),
    {
        self.0.set_bit(4, v);
    }

    /// Virtual transparent encryption is enabled (bit 5).
    pub fn virtual_transparent_encryption(&self) -> (r: bool)
        ensures
            r == (spec_get_bits64(self.spec_bits(), 5, 1) == 1),
    {
        self.0.bit(5)
    }

    /// Writes whether virtual transparent encryption is enabled (bit 5).
    pub fn set_virtual_transparent_encryption(&mut self, v: bool)
        ensures
            final(self).spec_bits() == spec_set_bits64(
                old(self).spec_bits(),
                5,
                1,
                (if v {
                    1u64
                } else {
                    0u64
                }),
            ),
            (spec_get_bits64(final(self).spec_bits(), 5, 1) == 1) == v,
            old(self).wf() ==> final(self).wf(),
    {
        self.0.set_bit(5, v);
    }

    /// Read-only guest page tables are enforced (bit 6).
    pub fn enable_read_only_guest_page_tables(&self) -> (r: bool)
        ensures
            r == (spec_get_bits64(self.spec_bits(), 6, 1) == 1),
    {
        self.0.bit(6)
    }

    /// Writes whether read-only guest page tables are enforced (bit 6).
    pub fn set_enable_read_only_guest_page_tables(&mut self, v: bool)
        ensures
            final(self).spec_bits() == spec_set_bits64(
                old(self).spec_bits(),
                6,
                1,
                (if v {
                    1u64
                } else {
                    0u64
                }),
            ),
            (spec_get_bits64(final(self).spec_bits(), 6, 1) == 1) == v,
            old(self).wf() ==> final(self).wf(),
    {
        self.0.set_bit(6, v);
    }

    /// The guest may execute INVLPGB and TLBSYNC (bit 7).
    pub fn enable_inv_lpgb_tlbsync(&self) -> (r: bool)
        ensures
            r == (spec_get_bits64(self.spec_bits(), 7, 1) == 1),
    {
        self.0.bit(7)
    }

    /// Writes whether the guest may execute INVLPGB and TLBSYNC (bit 7).
    pub fn set_enable_inv_lpgb_tlbsync(&mut self, v: bool)
        ensures
            final(self).spec_bits() == spec_set_bits64(
                old(self).spec_bits(),
                7,
                1,
                (if v {
                    1u64
                } else {
                    0u64
                }),
            ),
            (spec_get_bits64(final(self).spec_bits(), 7, 1) == 1) == v,
            old(self).wf() ==> final(self).wf(),
    {
        self.0.set_bit(7, v);
    }

    /// Reserved bits (bits 63:8); reads back zero while the word is
    /// well formed.
    pub fn reserved(&self) -> (r: u64)
        ensures
            r == spec_get_bits64(self.spec_bits(), 8, 56),
            self.wf() ==> r == 0,
    {
        self.0.field(8, 56)
    }
}

/// Virtual-APIC control word at offset `0x98` of the Control Area,
/// holding the APIC base address used by the hardware-accelerated
/// virtual interrupt controller.
#[derive(Clone, Copy, Debug, PartialEq, Eq, Structural)]
pub struct AvicControlFlags(pub PackedWord64);

impl AvicControlFlags {
    /// The raw packed word.
    pub open spec fn spec_bits(self) -> u64 {
        self.0.spec_bits()
    }

    /// Reserved bit ranges are zero: bits 63:52.
    pub open spec fn wf(self) -> bool {
        spec_get_bits64(self.spec_bits(), 52, 12) == 0
    }

    /// The all-zero reset word.
    pub fn new() -> (r: Self)
        ensures
            r.spec_bits() == 0,
            r.wf(),
    {
        proof {
            lemma_get_zero64(52, 12);
        }
        AvicControlFlags(PackedWord64::zero())
    }

    /// The APIC base address for the virtual interrupt controller (bits 51:0).
    pub fn apic_bar(&self) -> (r: u64)
        ensures
            r == spec_get_bits64(self.spec_bits(), 0, 52),
    {
        self.0.field(0, 52)
    }

    /// Writes the APIC base address for the virtual interrupt controller (bits 51:0); only the low 52 bits of `v`
    /// are stored.
    pub fn set_apic_bar(&mut self, v: u64)
        ensures
            final(self).spec_bits() == spec_set_bits64(old(self).spec_bits(), 0, 52, v),
            spec_get_bits64(final(self).spec_bits(), 0, 52) == v & spec_mask64(52),
            v <= spec_mask64(52) ==> spec_get_bits64(final(self).spec_bits(), 0, 52) == v,
            old(self).wf() ==> final(self).wf(),
    {
        self.0.set_field(0, 52, v);
    }

    /// Reserved high bits (bits 63:52); reads back zero while the word is
    /// well formed.
    pub fn reserved(&self) -> (r: u64)
        ensures
            r == spec_get_bits64(self.spec_bits(), 52, 12),
            self.wf() ==> r == 0,
    {
        self.0.field(52, 12)
    }
}

/// Branch-record virtualization control word at offset `0xB8` of the
/// Control Area.
#[derive(Clone, Copy, Debug, PartialEq, Eq, Structural)]
pub struct LbrVirtualizationFlags(pub PackedWord64);

impl LbrVirtualizationFlags {
    /// The raw packed word.
    pub open spec fn spec_bits(self) -> u64 {
        self.0.spec_bits()
    }

    /// Reserved bit ranges are zero: bits 63:3.
    pub open spec fn wf(self) -> bool {
        spec_get_bits64(self.spec_bits(), 3, 61) == 0
    }

    /// The all-zero reset word.
    pub fn new() -> (r: Self)
        ensures
            r.spec_bits() == 0,
            r.wf(),
    {
        proof {
            lemma_get_zero64(3, 61);
        }
        LbrVirtualizationFlags(PackedWord64::zero())
    }

    /// Hardware acceleration of last-branch-record virtualization is enabled (bit 0).
    pub fn lbr_virtualization_enable(&self) -> (r: bool)
        ensures
            r == (spec_get_bits64(self.spec_bits(), 0, 1) == 1),
    {
        self.0.bit(0)
    }

    /// Writes whether hardware acceleration of last-branch-record virtualization is enabled (bit 0).
    pub fn set_lbr_virtualization_enable(&mut self, v: bool)
        ensures
            final(self).spec_bits() == spec_set_bits64(
                old(self).spec_bits(),
                0,
                1,
                (if v {
                    1u64
                } else {
                    0u64
                }),
            ),
            (spec_get_bits64(final(self).spec_bits(), 0, 1) == 1) == v,
            old(self).wf() ==> final(self).wf(),
    {
        self.0.set_bit(0, v);
    }

    /// Virtualized VMSAVE and VMLOAD are enabled (bit 1).
    pub fn virtualized_vmsave_vmload_enable(&self) -> (r: bool)
        ensures
            r == (spec_get_bits64(self.spec_bits(), 1, 1) == 1),
    {
        self.0.bit(1)
    }

    /// Writes whether virtualized VMSAVE and VMLOAD are enabled (bit 1).
    pub fn set_virtualized_vmsave_vmload_enable(&mut self, v: bool)
        ensures
            final(self).spec_bits() == spec_set_bits64(
                old(self).spec_bits(),
                1,
                1,
                (if v {
                    1u64
                } else {
                    0u64
                }),
            ),
            (spec_get_bits64(final(self).spec_bits(), 1, 1) == 1) == v,
            old(self).wf() ==> final(self).wf(),
    {
        self.0.set_bit(1, v);
    }

    /// Virtualized instruction-based sampling is enabled (bit 2).
    pub fn virtualized_instruction_sampling_enable(&self) -> (r: bool)
        ensures
            r == (spec_get_bits64(self.spec_bits(), 2, 1) == 1),
    {
        self.0.bit(2)
    }

    /// Writes whether virtualized instruction-based sampling is enabled (bit 2).
    pub fn set_virtualized_instruction_sampling_enable(&mut self, v: bool)
        ensures
            final(self).spec_bits() == spec_set_bits64(
                old(self).spec_bits(),
                2,
                1,
                (if v {
                    1u64
                } else {
                    0u64
                }),
            ),
            (spec_get_bits64(final(self).spec_bits(), 2, 1) == 1) == v,
            old(self).wf() ==> final(self).wf(),
    {
        self.0.set_bit(2, v);
    }

    /// Reserved bits (bits 63:3); reads back zero while the word is
    /// well formed.
    pub fn reserved(&self) -> (r: u64)
        ensures
            r == spec_get_bits64(self.spec_bits(), 3, 61),
            self.wf() ==> r == 0,
    {
        self.0.field(3, 61)
    }
}

/// Clean-bits word at offset `0xC0` of the Control Area: a software
/// hint marking which control-block regions are unchanged since the
/// last entry, letting hardware skip reloading them.
#[derive(Clone, Copy, Debug, PartialEq, Eq, Structural)]
pub struct VmcbCleanBits(pub PackedWord64);

impl VmcbCleanBits {
    /// The raw packed word.
    pub open spec fn spec_bits(self) -> u64 {
        self.0.spec_bits()
    }

    /// Reserved bit ranges are zero: bits 63:32.
    pub open spec fn wf(self) -> bool {
        spec_get_bits64(self.spec_bits(), 32, 32) == 0
    }

    /// The all-zero reset word.
    pub fn new() -> (r: Self)
        ensures
            r.spec_bits() == 0,
            r.wf(),
    {
        proof {
            lemma_get_zero64(32, 32);
        }
        VmcbCleanBits(PackedWord64::zero())
    }

    /// The clean-bits mask (bits 31:0).
    pub fn vmcb_clean_bits(&self) -> (r: u64)
        ensures
            r == spec_get_bits64(self.spec_bits(), 0, 32),
    {
        self.0.field(0, 32)
    }

    /// Writes the clean-bits mask (bits 31:0); only the low 32 bits of `v`
    /// are stored.
    pub fn set_vmcb_clean_bits(&mut self, v: u64)
        ensures
            final(self).spec_bits() == spec_set_bits64(old(self).spec_bits(), 0, 32, v),
            spec_get_bits64(final(self).spec_bits(), 0, 32) == v & spec_mask64(32),
            v <= spec_mask64(32) ==> spec_get_bits64(final(self).spec_bits(), 0, 32) == v,
            old(self).wf() ==> final(self).wf(),
    {
        self.0.set_field(0, 32, v);
    }

    /// Reserved bits (bits 63:32); reads back zero while the word is
    /// well formed.
    pub fn reserved(&self) -> (r: u64)
        ensures
            r == spec_get_bits64(self.spec_bits(), 32, 32),
            self.wf() ==> r == 0,
    {
        self.0.field(32, 32)
    }
}

/// A virtual-APIC backing-page pointer of the Control Area: the
/// physical address of a page backing the hardware-accelerated
/// virtual interrupt controller.
#[derive(Clone, Copy, Debug, PartialEq, Eq, Structural)]
pub struct AvicBackingPagePointer(pub PackedWord64);

impl AvicBackingPagePointer {
    /// The raw packed word.
    pub open spec fn spec_bits(self) -> u64 {
        self.0.spec_bits()
    }

    /// Reserved bit ranges are zero: bits 63:52.
    pub open spec fn wf(self) -> bool {
        spec_get_bits64(self.spec_bits(), 52, 12) == 0
    }

    /// The all-zero reset word.
    pub fn new() -> (r: Self)
        ensures
            r.spec_bits() == 0,
            r.wf(),
    {
        proof {
            lemma_get_zero64(52, 12);
        }
        AvicBackingPagePointer(PackedWord64::zero())
    }

    /// The backing-page physical address (bits 51:0).
    pub fn apic_backing_page_pointer(&self) -> (r: u64)
        ensures
            r == spec_get_bits64(self.spec_bits(), 0, 52),
    {
        self.0.field(0, 52)
    }

    /// Writes the backing-page physical address (bits 51:0); only the low 52 bits of `v`
    /// are stored.
    pub fn set_apic_backing_page_pointer(&mut self, v: u64)
        ensures
            final(self).spec_bits() == spec_set_bits64(old(self).spec_bits(), 0, 52, v),
            spec_get_bits64(final(self).spec_bits(), 0, 52) == v & spec_mask64(52),
            v <= spec_mask64(52) ==> spec_get_bits64(final(self).spec_bits(), 0, 52) == v,
            old(self).wf() ==> final(self).wf(),
    {
        self.0.set_field(0, 52, v);
    }

    /// Reserved high bits (bits 63:52); reads back zero while the word is
    /// well formed.
    pub fn apic_backing_page_pointer_reserved(&self) -> (r: u64)
        ensures
            r == spec_get_bits64(self.spec_bits(), 52, 12),
            self.wf() ==> r == 0,
    {
        self.0.field(52, 12)
    }
}

/// Pointer to the logical-identifier table of the virtual interrupt
/// controller.
#[derive(Clone, Copy, Debug, PartialEq, Eq, Structural)]
pub struct AvicLogicalTablePointer(pub PackedWord64);

impl AvicLogicalTablePointer {
    /// The raw packed word.
    pub open spec fn spec_bits(self) -> u64 {
        self.0.spec_bits()
    }

    /// Reserved bit ranges are zero: bits 11:0, bits 63:52.
    pub open spec fn wf(self) -> bool {
        &&& spec_get_bits64(self.spec_bits(), 0, 12) == 0
        &&& spec_get_bits64(self.spec_bits(), 52, 12) == 0
    }

    /// The all-zero reset word.
    pub fn new() -> (r: Self)
        ensures
            r.spec_bits() == 0,
            r.wf(),
    {
        proof {
            lemma_get_zero64(0, 12);
            lemma_get_zero64(52, 12);
        }
        AvicLogicalTablePointer(PackedWord64::zero())
    }

    /// The logical-table physical page number (bits 51:12).
    pub fn avic_logical_table_pointer(&self) -> (r: u64)
        ensures
            r == spec_get_bits64(self.spec_bits(), 12, 40),
    {
        self.0.field(12, 40)
    }

    /// Writes the logical-table physical page number (bits 51:12); only the low 40 bits of `v`
    /// are stored.
    pub fn set_avic_logical_table_pointer(&mut self, v: u64)
        ensures
            final(self).spec_bits() == spec_set_bits64(old(self).spec_bits(), 12, 40, v),
            spec_get_bits64(final(self).spec_bits(), 12, 40) == v & spec_mask64(40),
            v <= spec_mask64(40) ==> spec_get_bits64(final(self).spec_bits(), 12, 40) == v,
            old(self).wf() ==> final(self).wf(),
    {
        self.0.set_field(12, 40, v);
    }

    /// Reserved low bits (bits 11:0); reads back zero while the word is
    /// well formed.
    pub fn avic_logical_table_pointer_reserved_1(&self) -> (r: u64)
        ensures
            r == spec_get_bits64(self.spec_bits(), 0, 12),
            self.wf() ==> r == 0,
    {
        self.0.field(0, 12)
    }

    /// Reserved high bits (bits 63:52); reads back zero while the word is
    /// well formed.
    pub fn avic_logical_table_pointer_reserved_2(&self) -> (r: u64)
        ensures
            r == spec_get_bits64(self.spec_bits(), 52, 12),
            self.wf() ==> r == 0,
    {
        self.0.field(52, 12)
    }
}

/// Pointer to the physical-identifier table of the virtual interrupt
/// controller, with the highest valid table index.
#[derive(Clone, Copy, Debug, PartialEq, Eq, Structural)]
pub struct AvicPhysicalTablePointer(pub PackedWord64);

impl AvicPhysicalTablePointer {
    /// The raw packed word.
    pub open spec fn spec_bits(self) -> u64 {
        self.0.spec_bits()
    }

    /// Reserved bit ranges are zero: bits 7:0, bits 55:48.
    pub open spec fn wf(self) -> bool {
        &&& spec_get_bits64(self.spec_bits(), 0, 8) == 0
        &&& spec_get_bits64(self.spec_bits(), 48, 8) == 0
    }

    /// The all-zero reset word.
    pub fn new() -> (r: Self)
        ensures
            r.spec_bits() == 0,
            r.wf(),
    {
        proof {
            lemma_get_zero64(0, 8);
            lemma_get_zero64(48, 8);
        }
        AvicPhysicalTablePointer(PackedWord64::zero())
    }

    /// The physical-table page number (bits 47:8).
    pub fn avic_physical_table_pointer(&self) -> (r: u64)
        ensures
            r == spec_get_bits64(self.spec_bits(), 8, 40),
    {
        self.0.field(8, 40)
    }

    /// Writes the physical-table page number (bits 47:8); only the low 40 bits of `v`
    /// are stored.
    pub fn set_avic_physical_table_pointer(&mut self, v: u64)
        ensures
            final(self).spec_bits() == spec_set_bits64(old(self).spec_bits(), 8, 40, v),
            spec_get_bits64(final(self).spec_bits(), 8, 40) == v & spec_mask64(40),
            v <= spec_mask64(40) ==> spec_get_bits64(final(self).spec_bits(), 8, 40) == v,
            old(self).wf() ==> final(self).wf(),
    {
        self.0.set_field(8, 40, v);
    }

    /// The highest valid index of the physical-identifier table (bits 63:56).
    pub fn avic_physical_max_index(&self) -> (r: u64)
        ensures
            r == spec_get_bits64(self.spec_bits(), 56, 8),
    {
        self.0.field(56, 8)
    }

    /// Writes the highest valid index of the physical-identifier table (bits 63:56); only the low 8 bits of `v`
    /// are stored.
    pub fn set_avic_physical_max_index(&mut self, v: u64)
        ensures
            final(self).spec_bits() == spec_set_bits64(old(self).spec_bits(), 56, 8, v),
            spec_get_bits64(final(self).spec_bits(), 56, 8) == v & spec_mask64(8),
            v <= spec_mask64(8) ==> spec_get_bits64(final(self).spec_bits(), 56, 8) == v,
            old(self).wf() ==> final(self).wf(),
    {
        self.0.set_field(56, 8, v);
    }

    /// Reserved low bits (bits 7:0); reads back zero while the word is
    /// well formed.
    pub fn avic_physical_table_pointer_reserved_1(&self) -> (r: u64)
        ensures
            r == spec_get_bits64(self.spec_bits(), 0, 8),
            self.wf() ==> r == 0,
    {
        self.0.field(0, 8)
    }

    /// Reserved middle bits (bits 55:48); reads back zero while the word is
    /// well formed.
    pub fn avic_physical_table_pointer_reserved_2(&self) -> (r: u64)
        ensures
            r == spec_get_bits64(self.spec_bits(), 48, 8),
            self.wf() ==> r == 0,
    {
        self.0.field(48, 8)
    }
}

/// Mask word at offset `0x138` of the Control Area selecting which
/// secure-encrypted-virtualization features the guest may use.
#[derive(Clone, Copy, Debug, PartialEq, Eq, Structural)]
pub struct SevFeaturesMask(pub PackedWord64);

impl SevFeaturesMask {
    /// The raw packed word.
    pub open spec fn spec_bits(self) -> u64 {
        self.0.spec_bits()
    }

    /// Reserved bit ranges are zero: bit 62.
    pub open spec fn wf(self) -> bool {
        spec_get_bits64(self.spec_bits(), 62, 1) == 0
    }

    /// The all-zero reset word.
    pub fn new() -> (r: Self)
        ensures
            r.spec_bits() == 0,
            r.wf(),
    {
        proof {
            lemma_get_zero64(62, 1);
        }
        SevFeaturesMask(PackedWord64::zero())
    }

    /// The allowed-features mask is enforced (bit 63).
    pub fn allowed_sev_features_en(&self) -> (r: bool)
        ensures
            r == (spec_get_bits64(self.spec_bits(), 63, 1) == 1),
    {
        self.0.bit(63)
    }

    /// Writes whether the allowed-features mask is enforced (bit 63).
    pub fn set_allowed_sev_features_en(&mut self, v: bool)
        ensures
            final(self).spec_bits() == spec_set_bits64(
                old(self).spec_bits(),
                63,
                1,
                (if v {
                    1u64
                } else {
                    0u64
                }),
            ),
            (spec_get_bits64(final(self).spec_bits(), 63, 1) == 1) == v,
            old(self).wf() ==> final(self).wf(),
    {
        self.0.set_bit(63, v);
    }

    /// The allowed-features mask (bits 61:0).
    pub fn allowed_sev_features_mask(&self) -> (r: u64)
        ensures
            r == spec_get_bits64(self.spec_bits(), 0, 62),
    {
        self.0.field(0, 62)
    }

    /// Writes the allowed-features mask (bits 61:0); only the low 62 bits of `v`
    /// are stored.
    pub fn set_allowed_sev_features_mask(&mut self, v: u64)
        ensures
            final(self).spec_bits() == spec_set_bits64(old(self).spec_bits(), 0, 62, v),
            spec_get_bits64(final(self).spec_bits(), 0, 62) == v & spec_mask64(62),
            v <= spec_mask64(62) ==> spec_get_bits64(final(self).spec_bits(), 0, 62) == v,
            old(self).wf() ==> final(self).wf(),
    {
        self.0.set_field(0, 62, v);
    }

    /// A reserved bit (bit 62); reads back zero while the word is
    /// well formed.
    pub fn reserved(&self) -> (r: u64)
        ensures
            r == spec_get_bits64(self.spec_bits(), 62, 1),
            self.wf() ==> r == 0,
    {
        self.0.field(62, 1)
    }
}

/// The secure-encrypted-virtualization features the guest declared at
/// offset `0x140` of the Control Area.
#[derive(Clone, Copy, Debug, PartialEq, Eq, Structural)]
pub struct GuestSevFeatures(pub PackedWord64);

impl GuestSevFeatures {
    /// The raw packed word.
    pub open spec fn spec_bits(self) -> u64 {
        self.0.spec_bits()
    }

    /// Reserved bit ranges are zero: bits 63:62.
    pub open spec fn wf(self) -> bool {
        spec_get_bits64(self.spec_bits(), 62, 2) == 0
    }

    /// The all-zero reset word.
    pub fn new() -> (r: Self)
        ensures
            r.spec_bits() == 0,
            r.wf(),
    {
        proof {
            lemma_get_zero64(62, 2);
        }
        GuestSevFeatures(PackedWord64::zero())
    }

    /// The guest's feature word (bits 61:0).
    pub fn guest_sev_features(&self) -> (r: u64)
        ensures
            r == spec_get_bits64(self.spec_bits(), 0, 62),
    {
        self.0.field(0, 62)
    }

    /// Writes the guest's feature word (bits 61:0); only the low 62 bits of `v`
    /// are stored.
    pub fn set_guest_sev_features(&mut self, v: u64)
        ensures
            final(self).spec_bits() == spec_set_bits64(old(self).spec_bits(), 0, 62, v),
            spec_get_bits64(final(self).spec_bits(), 0, 62) == v & spec_mask64(62),
            v <= spec_mask64(62) ==> spec_get_bits64(final(self).spec_bits(), 0, 62) == v,
            old(self).wf() ==> final(self).wf(),
    {
        self.0.set_field(0, 62, v);
    }

    /// Reserved bits (bits 63:62); reads back zero while the word is
    /// well formed.
    pub fn reserved(&self) -> (r: u64)
        ensures
            r == spec_get_bits64(self.spec_bits(), 62, 2),
            self.wf() ==> r == 0,
    {
        self.0.field(62, 2)
    }
}

/// Pointer at offset `0x108` of the Control Area to the separate
/// state-save page an encrypted guest uses.
#[derive(Clone, Copy, Debug, PartialEq, Eq, Structural)]
pub struct VmcbStateSaveAreaPointer(pub PackedWord64);

impl VmcbStateSaveAreaPointer {
    /// The raw packed word.
    pub open spec fn spec_bits(self) -> u64 {
        self.0.spec_bits()
    }

    /// Reserved bit ranges are zero: bits 11:0, bits 63:52.
    pub open spec fn wf(self) -> bool {
        &&& spec_get_bits64(self.spec_bits(), 0, 12) == 0
        &&& spec_get_bits64(self.spec_bits(), 52, 12) == 0
    }

    /// The all-zero reset word.
    pub fn new() -> (r: Self)
        ensures
            r.spec_bits() == 0,
            r.wf(),
    {
        proof {
            lemma_get_zero64(0, 12);
            lemma_get_zero64(52, 12);
        }
        VmcbStateSaveAreaPointer(PackedWord64::zero())
    }

    /// The save-area physical page number (bits 51:12).
    pub fn vmsa_pointer(&self) -> (r: u64)
        ensures
            r == spec_get_bits64(self.spec_bits(), 12, 40),
    {
        self.0.field(12, 40)
    }

    /// Writes the save-area physical page number (bits 51:12); only the low 40 bits of `v`
    /// are stored.
    pub fn set_vmsa_pointer(&mut self, v: u64)
        ensures
            final(self).spec_bits() == spec_set_bits64(old(self).spec_bits(), 12, 40, v),
            spec_get_bits64(final(self).spec_bits(), 12, 40) == v & spec_mask64(40),
            v <= spec_mask64(40) ==> spec_get_bits64(final(self).spec_bits(), 12, 40) == v,
            old(self).wf() ==> final(self).wf(),
    {
        self.0.set_field(12, 40, v);
    }

    /// Reserved low bits (bits 11:0); reads back zero while the word is
    /// well formed.
    pub fn vmsa_pointer_reserved_1(&self) -> (r: u64)
        ensures
            r == spec_get_bits64(self.spec_bits(), 0, 12),
            self.wf() ==> r == 0,
    {
        self.0.field(0, 12)
    }

    /// Reserved high bits (bits 63:52); reads back zero while the word is
    /// well formed.
    pub fn vmsa_pointer_reserved_2(&self) -> (r: u64)
        ensures
            r == spec_get_bits64(self.spec_bits(), 52, 12),
            self.wf() ==> r == 0,
    {
        self.0.field(52, 12)
    }
}



/// Instruction-fetch record at offset `0xD0` of the Control Area:
/// hardware reports how many instruction bytes it fetched at the
/// intercepted instruction and the bytes themselves.
#[derive(Clone, Copy, Debug, PartialEq, Eq)]
pub struct InstructionFetchCount {
    /// How many of the recorded bytes are valid.
    pub number_of_bytes_fetched: u8,
    /// The fetched guest instruction bytes.
    pub guest_instruction_bytes: [u8; 15],
}

impl InstructionFetchCount {
    /// Whether every byte of the record is zero.
    pub open spec fn is_cleared(self) -> bool {
        &&& self.number_of_bytes_fetched == 0
        &&& forall|i: int| 0 <= i < 15 ==> self.guest_instruction_bytes@[i] == 0
    }

    /// The all-zero reset record.
    pub fn new() -> (r: Self)
        ensures
            r.is_cleared(),
    {
        InstructionFetchCount { number_of_bytes_fetched: 0, guest_instruction_bytes: [0u8; 15] }
    }
}

/// A segment or descriptor-table register cache of the State-Save
/// Area: the hidden selector, attribute, limit and base values the
/// hardware loads for the guest.
#[derive(Clone, Copy, Debug, PartialEq, Eq, Structural)]
pub struct VmcbRegister {
    /// The visible segment selector.
    pub selector: u16,
    /// The cached access-rights attributes.
    pub attrib: u16,
    /// The cached segment limit.
    pub limit: u32,
    /// The cached segment base address.
    pub base: u64,
}

impl VmcbRegister {
    /// The all-zero reset cache.
    pub fn new() -> (r: Self)
        ensures
            r == (VmcbRegister { selector: 0, attrib: 0, limit: 0, base: 0 }),
    {
        VmcbRegister { selector: 0, attrib: 0, limit: 0, base: 0 }
    }

    /// Writes the selector, leaving the other cached values unchanged.
    pub fn set_selector(&mut self, v: u16)
        ensures
            *final(self) == (VmcbRegister { selector: v, ..*old(self) }),
    {
        self.selector = v;
    }

    /// Writes the attributes, leaving the other cached values
    /// unchanged.
    pub fn set_attrib(&mut self, v: u16)
        ensures
            *final(self) == (VmcbRegister { attrib: v, ..*old(self) }),
    {
        self.attrib = v;
    }

    /// Writes the limit, leaving the other cached values unchanged.
    pub fn set_limit(&mut self, v: u32)
        ensures
            *final(self) == (VmcbRegister { limit: v, ..*old(self) }),
    {
        self.limit = v;
    }

    /// Writes the base, leaving the other cached values unchanged.
    pub fn set_base(&mut self, v: u64)
        ensures
            *final(self) == (VmcbRegister { base: v, ..*old(self) }),
    {
        self.base = v;
    }
}

/// The defined encodings of the TLB-control command.
#[derive(Clone, Copy, Debug, PartialEq, Eq, Structural)]
pub enum TlbControl {
    /// Do nothing.
    DoNothing,
    /// Flush the entire TLB, all entries of all address spaces, on
    /// entry.
    FlushAll,
    /// Flush this guest's TLB entries.
    FlushGuest,
    /// Flush this guest's non-global TLB entries.
    FlushGuestNonGlobal,
    /// A reserved or invalid encoding.
    Reserved,
}

/// The command a raw TLB-control value decodes to; an unknown encoding
/// decodes to the explicit reserved variant rather than to an
/// arbitrary command.
pub open spec fn spec_tlb_control_of(v: u64) -> TlbControl {
    if v == 0x00 {
        TlbControl::DoNothing
    } else if v == 0x01 {
        TlbControl::FlushAll
    } else if v == 0x03 {
        TlbControl::FlushGuest
    } else if v == 0x07 {
        TlbControl::FlushGuestNonGlobal
    } else {
        TlbControl::Reserved
    }
}

impl TlbControl {
    /// Decodes a raw TLB-control value.
    pub fn from_encoding(v: u64) -> (r: Self)
        ensures
            r == spec_tlb_control_of(v),
    {
        if v == 0x00 {
            TlbControl::DoNothing
        } else if v == 0x01 {
            TlbControl::FlushAll
        } else if v == 0x03 {
            TlbControl::FlushGuest
        } else if v == 0x07 {
            TlbControl::FlushGuestNonGlobal
        } else {
            TlbControl::Reserved
        }
    }
}

/// Exactly the four defined encodings decode to a real command; every
/// other value decodes to the reserved variant.
pub proof fn lemma_tlb_control_defined(v: u64)
    ensures
        (spec_tlb_control_of(v) != TlbControl::Reserved) <==> (v == 0x00 || v == 0x01 || v == 0x03
            || v == 0x07),
{
}

/// The diagnostic description of a raw TLB-control value.
pub open spec fn tlb_control_text(v: u64) -> Seq<char> {
    if v == 0x00 {
        "Do nothing"@
    } else if v == 0x01 {
        "Flush entire TLB (all entries, all ASIDs) on VMRUN"@
    } else if v == 0x03 {
        "Flush this guest's TLB entries"@
    } else if v == 0x07 {
        "Flush this guest's non-global TLB entries"@
    } else {
        "Reserved or Invalid encoding"@
    }
}

/// The exit fields of the Control Area: the exit code, the two
/// exit-qualification words and the interrupt information that the
/// hardware alone writes when the guest traps.
///
/// Software writing these fields before entry is undefined at the
/// hardware level, so this type exposes no mutator; a freshly
/// allocated control block holds them as zero and only the hardware
/// ever changes them.
#[derive(Clone, Copy, Debug, PartialEq, Eq)]
pub struct VmcbExitFields {
    exit_code: u64,
    exit_info_1: u64,
    exit_info_2: u64,
    exit_init_info: u64,
}

impl VmcbExitFields {
    /// The raw exit code the hardware wrote.
    pub closed spec fn spec_exit_code(self) -> u64 {
        self.exit_code
    }

    /// The first exit-qualification word.
    pub closed spec fn spec_exit_info_1(self) -> u64 {
        self.exit_info_1
    }

    /// The second exit-qualification word.
    pub closed spec fn spec_exit_info_2(self) -> u64 {
        self.exit_info_2
    }

    /// The interrupt information of the exit.
    pub closed spec fn spec_exit_init_info(self) -> u64 {
        self.exit_init_info
    }

    /// The all-zero state of a freshly allocated control block.
    pub fn new() -> (r: Self)
        ensures
            r.spec_exit_code() == 0,
            r.spec_exit_info_1() == 0,
            r.spec_exit_info_2() == 0,
            r.spec_exit_init_info() == 0,
    {
        VmcbExitFields { exit_code: 0, exit_info_1: 0, exit_info_2: 0, exit_init_info: 0 }
    }

    /// Reads the raw exit code the hardware wrote.
    pub fn exit_code(&self) -> (r: u64)
        ensures
            r == self.spec_exit_code(),
    {
        self.exit_code
    }

    /// Reads the first exit-qualification word.
    pub fn exit_info_1(&self) -> (r: u64)
        ensures
            r == self.spec_exit_info_1(),
    {
        self.exit_info_1
    }

    /// Reads the second exit-qualification word.
    pub fn exit_info_2(&self) -> (r: u64)
        ensures
            r == self.spec_exit_info_2(),
    {
        self.exit_info_2
    }

    /// Reads the interrupt information of the exit.
    pub fn exit_init_info(&self) -> (r: u64)
        ensures
            r == self.spec_exit_init_info(),
    {
        self.exit_init_info
    }
}

/// The Control Area: the first `0x400` bytes of the control block,
/// holding the interception bitmaps, address-space identifier,
/// nested-paging and virtual-interrupt controls, and the exit fields
/// the hardware writes when the guest traps.
///
/// The exit fields (`exit_code`, `exit_info_1`, `exit_info_2`,
/// `exit_init_info`) are hardware-owned: software writing them before
/// entry is undefined at the hardware level, so this type exposes no
/// mutator for them.
#[derive(Clone, Copy, Debug, PartialEq, Eq)]
pub struct VmcbControlArea {
    /// Intercept bits for control-register reads, one per register.
    pub intercept_cr_read: u16,
    /// Intercept bits for control-register writes, one per register.
    pub intercept_cr_write: u16,
    /// Intercept bits for debug-register reads, one per register.
    pub intercept_dr_read: u16,
    /// Intercept bits for debug-register writes, one per register.
    pub intercept_dr_write: u16,
    /// Intercept bits for exception vectors, one per vector.
    pub intercept_exception: u32,
    /// Interrupt, descriptor-table and instruction intercepts.
    pub intercept_vector3: VmcbInterceptVector3,
    /// SVM-instruction and register-write intercepts.
    pub intercept_vector4: VmcbInterceptVector4,
    /// TLB-maintenance intercepts.
    pub intercept_vector5: VmcbInterceptVector5,
    /// PAUSE-filter threshold for bounding busy-wait loops.
    pub pause_filter_threshold: u16,
    /// PAUSE-filter count.
    pub pause_filter_count: u16,
    /// Physical base address of the I/O-permission map; the low 12
    /// bits are ignored by hardware.
    pub iopm_base_pa: u64,
    /// Physical base address of the MSR-permission map.
    pub msrpm_base_pa: u64,
    /// Offset added to the guest's time-stamp counter reads.
    pub tsc_offset: u64,
    /// Guest address-space identifier and TLB-control command.
    pub guest: VmcbGuest,
    /// Virtual-interrupt controls.
    pub vm_interrupt_control_flags: VmInterruptControlFlags,
    /// Interrupt-shadow state.
    pub vm_shadow_interrupt: VmShadowInterrupt,
    /// The hardware-written exit fields.
    pub exit: VmcbExitFields,
    /// Nested-paging and encryption controls.
    pub nested_paging_flags: NestedPagingFlags,
    /// Virtual-APIC controls.
    pub avic_control_flags: AvicControlFlags,
    /// Guest physical address of the guest-hypervisor communication
    /// block.
    pub ghcb_pa: u64,
    /// Event-injection word: an event to deliver to the guest at
    /// entry.
    pub event_injection: u64,
    /// Root of the nested page table.
    pub n_cr3: u64,
    /// Branch-record virtualization controls.
    pub lbr_virtualization_flags: LbrVirtualizationFlags,
    /// Clean-bits hint word.
    pub clean_bits: VmcbCleanBits,
    /// The next sequential instruction pointer after the intercepted
    /// instruction.
    pub n_rip: u64,
    /// The instruction bytes hardware fetched at the intercept.
    pub instruction_fetch_count: InstructionFetchCount,
    /// Backing page of the virtual interrupt controller.
    pub avic_backing_page_pointer: AvicBackingPagePointer,
    /// Backing page of the logical-identifier table.
    pub avic_logical_backing_page_pointer: AvicBackingPagePointer,
    /// Backing page of the physical-identifier table.
    pub avic_physical_backing_page_pointer: AvicBackingPagePointer,
    /// Pointer to the separate save-state page of an encrypted guest.
    pub vmsa_pointer: VmcbStateSaveAreaPointer,
    /// RAX value reported by a VMGEXIT exit.
    pub vmgexit_rax: u64,
    /// Privilege level reported by a VMGEXIT exit.
    pub vmgexit_cpl: u8,
    /// Bus-lock threshold counter.
    pub bus_lock_threshold_counter: u16,
    /// Interrupt-request bits to merge into the virtual controller.
    pub update_irr: [u8; 5],
    /// Mask of allowed secure-encrypted-virtualization features.
    pub sev_features_mask: SevFeaturesMask,
    /// Features the encrypted guest declared.
    pub guest_sev_features: GuestSevFeatures,
    /// Pending interrupt-request bits of the virtual controller.
    pub requested_irr: [u8; 32],
}

impl VmcbControlArea {
    /// Every reserved bit range of every packed word is zero.
    pub open spec fn wf(self) -> bool {
        &&& self.intercept_vector3.wf()
        &&& self.intercept_vector4.wf()
        &&& self.intercept_vector5.wf()
        &&& self.guest.wf()
        &&& self.vm_interrupt_control_flags.wf()
        &&& self.vm_shadow_interrupt.wf()
        &&& self.nested_paging_flags.wf()
        &&& self.avic_control_flags.wf()
        &&& self.lbr_virtualization_flags.wf()
        &&& self.clean_bits.wf()
        &&& self.avic_backing_page_pointer.wf()
        &&& self.avic_logical_backing_page_pointer.wf()
        &&& self.avic_physical_backing_page_pointer.wf()
        &&& self.vmsa_pointer.wf()
        &&& self.sev_features_mask.wf()
        &&& self.guest_sev_features.wf()
    }

    /// Whether every field of the area is zero, as a freshly allocated
    /// zero-filled frame leaves it.
    pub open spec fn is_cleared(self) -> bool {
        &&& self.intercept_cr_read == 0
        &&& self.intercept_cr_write == 0
        &&& self.intercept_dr_read == 0
        &&& self.intercept_dr_write == 0
        &&& self.intercept_exception == 0
        &&& self.intercept_vector3.spec_bits() == 0
        &&& self.intercept_vector4.spec_bits() == 0
        &&& self.intercept_vector5.spec_bits() == 0
        &&& self.pause_filter_threshold == 0
        &&& self.pause_filter_count == 0
        &&& self.iopm_base_pa == 0
        &&& self.msrpm_base_pa == 0
        &&& self.tsc_offset == 0
        &&& self.guest.spec_bits() == 0
        &&& self.vm_interrupt_control_flags.spec_bits() == 0
        &&& self.vm_shadow_interrupt.spec_bits() == 0
        &&& self.exit.spec_exit_code() == 0
        &&& self.exit.spec_exit_info_1() == 0
        &&& self.exit.spec_exit_info_2() == 0
        &&& self.exit.spec_exit_init_info() == 0
        &&& self.nested_paging_flags.spec_bits() == 0
        &&& self.avic_control_flags.spec_bits() == 0
        &&& self.ghcb_pa == 0
        &&& self.event_injection == 0
        &&& self.n_cr3 == 0
        &&& self.lbr_virtualization_flags.spec_bits() == 0
        &&& self.clean_bits.spec_bits() == 0
        &&& self.n_rip == 0
        &&& self.instruction_fetch_count.is_cleared()
        &&& self.avic_backing_page_pointer.spec_bits() == 0
        &&& self.avic_logical_backing_page_pointer.spec_bits() == 0
        &&& self.avic_physical_backing_page_pointer.spec_bits() == 0
        &&& self.vmsa_pointer.spec_bits() == 0
        &&& self.vmgexit_rax == 0
        &&& self.vmgexit_cpl == 0
        &&& self.bus_lock_threshold_counter == 0
        &&& forall|i: int| 0 <= i < 5 ==> self.update_irr@[i] == 0
        &&& self.sev_features_mask.spec_bits() == 0
        &&& self.guest_sev_features.spec_bits() == 0
        &&& forall|i: int| 0 <= i < 32 ==> self.requested_irr@[i] == 0
    }

    /// The all-zero area a freshly allocated frame holds.
    pub fn new() -> (r: Self)
        ensures
            r.is_cleared(),
            r.wf(),
    {
        VmcbControlArea {
            intercept_cr_read: 0,
            intercept_cr_write: 0,
            intercept_dr_read: 0,
            intercept_dr_write: 0,
            intercept_exception: 0,
            intercept_vector3: VmcbInterceptVector3::new(),
            intercept_vector4: VmcbInterceptVector4::new(),
            intercept_vector5: VmcbInterceptVector5::new(),
            pause_filter_threshold: 0,
            pause_filter_count: 0,
            iopm_base_pa: 0,
            msrpm_base_pa: 0,
            tsc_offset: 0,
            guest: VmcbGuest::new(),
            vm_interrupt_control_flags: VmInterruptControlFlags::new(),
            vm_shadow_interrupt: VmShadowInterrupt::new(),
            exit: VmcbExitFields::new(),
            nested_paging_flags: NestedPagingFlags::new(),
            avic_control_flags: AvicControlFlags::new(),
            ghcb_pa: 0,
            event_injection: 0,
            n_cr3: 0,
            lbr_virtualization_flags: LbrVirtualizationFlags::new(),
            clean_bits: VmcbCleanBits::new(),
            n_rip: 0,
            instruction_fetch_count: InstructionFetchCount::new(),
            avic_backing_page_pointer: AvicBackingPagePointer::new(),
            avic_logical_backing_page_pointer: AvicBackingPagePointer::new(),
            avic_physical_backing_page_pointer: AvicBackingPagePointer::new(),
            vmsa_pointer: VmcbStateSaveAreaPointer::new(),
            vmgexit_rax: 0,
            vmgexit_cpl: 0,
            bus_lock_threshold_counter: 0,
            update_irr: [0u8; 5],
            sev_features_mask: SevFeaturesMask::new(),
            guest_sev_features: GuestSevFeatures::new(),
            requested_irr: [0u8; 32],
        }
    }

    /// The command the TLB-control field currently encodes; an unknown
    /// encoding decodes to the explicit reserved variant.
    pub fn decode_tlb_control(&self) -> (r: TlbControl)
        ensures
            r == spec_tlb_control_of(spec_get_bits64(self.guest.spec_bits(), 32, 8)),
    {
        TlbControl::from_encoding(self.guest.tlb_control())
    }

    /// The diagnostic description of the TLB-control field.
    pub fn tlb_control_description(&self) -> (r: &str)
        ensures
            r@ == tlb_control_text(spec_get_bits64(self.guest.spec_bits(), 32, 8)),
    {
        let v = self.guest.tlb_control();
        if v == 0x00 {
            "Do nothing"
        } else if v == 0x01 {
            "Flush entire TLB (all entries, all ASIDs) on VMRUN"
        } else if v == 0x03 {
            "Flush this guest's TLB entries"
        } else if v == 0x07 {
            "Flush this guest's non-global TLB entries"
        } else {
            "Reserved or Invalid encoding"
        }
    }
}

/// The State-Save Area: the guest register state that follows the
/// Control Area in the control block. The hypervisor writes it before
/// entry to define the guest's initial state; the hardware overwrites
/// it while the guest runs, so after an exit it may be read only once
/// the entry-failure check has passed.
#[derive(Clone, Copy, Debug, PartialEq, Eq)]
pub struct VmcbStateSaveArea {
    /// The ES segment cache.
    pub es: VmcbRegister,
    /// The CS segment cache.
    pub cs: VmcbRegister,
    /// The SS segment cache.
    pub ss: VmcbRegister,
    /// The DS segment cache.
    pub ds: VmcbRegister,
    /// The FS segment cache.
    pub fs: VmcbRegister,
    /// The GS segment cache.
    pub gs: VmcbRegister,
    /// The global descriptor-table register cache.
    pub gdtr: VmcbRegister,
    /// The local descriptor-table register cache.
    pub ldtr: VmcbRegister,
    /// The interrupt descriptor-table register cache.
    pub idtr: VmcbRegister,
    /// The task-register cache.
    pub tr: VmcbRegister,
    /// The guest's current privilege level; forced to 0 in real mode
    /// and to 3 in virtual mode.
    pub cpl: u8,
    /// The guest's extended-feature-enable register.
    pub efer: u64,
    /// Performance-counter control 0.
    pub perf_ctl0: u64,
    /// Performance counter 0.
    pub perf_ctr0: u64,
    /// Performance-counter control 1.
    pub perf_ctl1: u64,
    /// Performance counter 1.
    pub perf_ctr1: u64,
    /// Performance-counter control 2.
    pub perf_ctl2: u64,
    /// Performance counter 2.
    pub perf_ctr2: u64,
    /// Performance-counter control 3.
    pub perf_ctl3: u64,
    /// Performance counter 3.
    pub perf_ctr3: u64,
    /// Performance-counter control 4.
    pub perf_ctl4: u64,
    /// Performance counter 4.
    pub perf_ctr4: u64,
    /// Performance-counter control 5.
    pub perf_ctl5: u64,
    /// Performance counter 5.
    pub perf_ctr5: u64,
    /// Guest control register 4.
    pub cr4: u64,
    /// Guest control register 3, the page-table root.
    pub cr3: u64,
    /// Guest control register 0.
    pub cr0: u64,
    /// Guest debug-control register 7.
    pub dr7: u64,
    /// Guest debug-status register 6.
    pub dr6: u64,
    /// The guest's flags register.
    pub rflags: u64,
    /// The guest's instruction pointer.
    pub rip: u64,
    /// The retired-instruction counter.
    pub instr_retired_ctr: u64,
    /// The global performance-counter status.
    pub perf_ctr_global_sts: u64,
    /// The global performance-counter control.
    pub perf_ctr_global_ctl: u64,
    /// The guest's stack pointer.
    pub rsp: u64,
    /// The control-flow-enforcement state.
    pub s_cet: u64,
    /// The shadow-stack pointer.
    pub ssp: u64,
    /// The interrupt shadow-stack table address.
    pub isst_addr: u64,
    /// The guest's RAX register.
    pub rax: u64,
    /// The STAR system-call MSR.
    pub star: u64,
    /// The LSTAR system-call MSR.
    pub lstar: u64,
    /// The CSTAR system-call MSR.
    pub cstar: u64,
    /// The system-call flag-mask MSR.
    pub sfmask: u64,
    /// The kernel GS-base MSR.
    pub kernel_gs_base: u64,
    /// The SYSENTER code-segment MSR.
    pub sysenter_cs: u64,
    /// The SYSENTER stack-pointer MSR.
    pub sysenter_esp: u64,
    /// The SYSENTER instruction-pointer MSR.
    pub sysenter_eip: u64,
    /// Guest control register 2, the faulting address.
    pub cr2: u64,
    /// The guest's page-attribute table.
    pub g_pat: u64,
    /// The debug-control MSR.
    pub dbgctl: u64,
    /// The source of the last branch.
    pub br_from: u64,
    /// The target of the last branch.
    pub br_to: u64,
    /// The source of the last exception.
    pub lastexcpfrom: u64,
    /// The target of the last exception.
    pub lastexcpto: u64,
    /// The extended debug-control MSR.
    pub dbgextnctl: u64,
    /// The speculation-control MSR.
    pub spec_ctrl: u64,
    /// The last-branch-record stack.
    pub lbr_stack: [u8; 256],
    /// The last-branch-record selector.
    pub lbr_select: u64,
    /// Instruction-based-sampling fetch control.
    pub ibs_fetch_ctl: u64,
    /// Instruction-based-sampling fetch address.
    pub ibs_fetch_linaddr: u64,
    /// Instruction-based-sampling operation control.
    pub ibs_op_ctl: u64,
    /// Instruction-based-sampling operation pointer.
    pub ibs_op_rip: u64,
    /// Instruction-based-sampling data word.
    pub ibs_op_data: u64,
    /// Second instruction-based-sampling data word.
    pub ibs_op_data2: u64,
    /// Third instruction-based-sampling data word.
    pub ibs_op_data3: u64,
    /// Instruction-based-sampling data-cache address.
    pub ibs_dc_linaddr: u64,
    /// The sampled branch-target pointer.
    pub bp_ibstgt_rip: u64,
    /// Extended instruction-based-sampling control.
    pub ic_ibst_extd_ctl: u64,
}

impl VmcbStateSaveArea {
    /// Whether every field of the area is zero, as a freshly allocated
    /// zero-filled frame leaves it.
    pub open spec fn is_cleared(self) -> bool {
        &&& self.es == (VmcbRegister { selector: 0, attrib: 0, limit: 0, base: 0 })
        &&& self.cs == (VmcbRegister { selector: 0, attrib: 0, limit: 0, base: 0 })
        &&& self.ss == (VmcbRegister { selector: 0, attrib: 0, limit: 0, base: 0 })
        &&& self.ds == (VmcbRegister { selector: 0, attrib: 0, limit: 0, base: 0 })
        &&& self.fs == (VmcbRegister { selector: 0, attrib: 0, limit: 0, base: 0 })
        &&& self.gs == (VmcbRegister { selector: 0, attrib: 0, limit: 0, base: 0 })
        &&& self.gdtr == (VmcbRegister { selector: 0, attrib: 0, limit: 0, base: 0 })
        &&& self.ldtr == (VmcbRegister { selector: 0, attrib: 0, limit: 0, base: 0 })
        &&& self.idtr == (VmcbRegister { selector: 0, attrib: 0, limit: 0, base: 0 })
        &&& self.tr == (VmcbRegister { selector: 0, attrib: 0, limit: 0, base: 0 })
        &&& self.cpl == 0
        &&& self.efer == 0
        &&& self.perf_ctl0 == 0
        &&& self.perf_ctr0 == 0
        &&& self.perf_ctl1 == 0
        &&& self.perf_ctr1 == 0
        &&& self.perf_ctl2 == 0
        &&& self.perf_ctr2 == 0
        &&& self.perf_ctl3 == 0
        &&& self.perf_ctr3 == 0
        &&& self.perf_ctl4 == 0
        &&& self.perf_ctr4 == 0
        &&& self.perf_ctl5 == 0
        &&& self.perf_ctr5 == 0
        &&& self.cr4 == 0
        &&& self.cr3 == 0
        &&& self.cr0 == 0
        &&& self.dr7 == 0
        &&& self.dr6 == 0
        &&& self.rflags == 0
        &&& self.rip == 0
        &&& self.instr_retired_ctr == 0
        &&& self.perf_ctr_global_sts == 0
        &&& self.perf_ctr_global_ctl == 0
        &&& self.rsp == 0
        &&& self.s_cet == 0
        &&& self.ssp == 0
        &&& self.isst_addr == 0
        &&& self.rax == 0
        &&& self.star == 0
        &&& self.lstar == 0
        &&& self.cstar == 0
        &&& self.sfmask == 0
        &&& self.kernel_gs_base == 0
        &&& self.sysenter_cs == 0
        &&& self.sysenter_esp == 0
        &&& self.sysenter_eip == 0
        &&& self.cr2 == 0
        &&& self.g_pat == 0
        &&& self.dbgctl == 0
        &&& self.br_from == 0
        &&& self.br_to == 0
        &&& self.lastexcpfrom == 0
        &&& self.lastexcpto == 0
        &&& self.dbgextnctl == 0
        &&& self.spec_ctrl == 0
        &&& self.lbr_select == 0
        &&& self.ibs_fetch_ctl == 0
        &&& self.ibs_fetch_linaddr == 0
        &&& self.ibs_op_ctl == 0
        &&& self.ibs_op_rip == 0
        &&& self.ibs_op_data == 0
        &&& self.ibs_op_data2 == 0
        &&& self.ibs_op_data3 == 0
        &&& self.ibs_dc_linaddr == 0
        &&& self.bp_ibstgt_rip == 0
        &&& self.ic_ibst_extd_ctl == 0
        &&& forall|i: int| 0 <= i < 256 ==> self.lbr_stack@[i] == 0
    }

    /// The all-zero area a freshly allocated frame holds.
    pub fn new() -> (r: Self)
        ensures
            r.is_cleared(),
    {
        VmcbStateSaveArea {
            es: VmcbRegister::new(),
            cs: VmcbRegister::new(),
            ss: VmcbRegister::new(),
            ds: VmcbRegister::new(),
            fs: VmcbRegister::new(),
            gs: VmcbRegister::new(),
            gdtr: VmcbRegister::new(),
            ldtr: VmcbRegister::new(),
            idtr: VmcbRegister::new(),
            tr: VmcbRegister::new(),
            cpl: 0,
            efer: 0,
            perf_ctl0: 0,
            perf_ctr0: 0,
            perf_ctl1: 0,
            perf_ctr1: 0,
            perf_ctl2: 0,
            perf_ctr2: 0,
            perf_ctl3: 0,
            perf_ctr3: 0,
            perf_ctl4: 0,
            perf_ctr4: 0,
            perf_ctl5: 0,
            perf_ctr5: 0,
            cr4: 0,
            cr3: 0,
            cr0: 0,
            dr7: 0,
            dr6: 0,
            rflags: 0,
            rip: 0,
            instr_retired_ctr: 0,
            perf_ctr_global_sts: 0,
            perf_ctr_global_ctl: 0,
            rsp: 0,
            s_cet: 0,
            ssp: 0,
            isst_addr: 0,
            rax: 0,
            star: 0,
            lstar: 0,
            cstar: 0,
            sfmask: 0,
            kernel_gs_base: 0,
            sysenter_cs: 0,
            sysenter_esp: 0,
            sysenter_eip: 0,
            cr2: 0,
            g_pat: 0,
            dbgctl: 0,
            br_from: 0,
            br_to: 0,
            lastexcpfrom: 0,
            lastexcpto: 0,
            dbgextnctl: 0,
            spec_ctrl: 0,
            lbr_stack: [0u8; 256],
            lbr_select: 0,
            ibs_fetch_ctl: 0,
            ibs_fetch_linaddr: 0,
            ibs_op_ctl: 0,
            ibs_op_rip: 0,
            ibs_op_data: 0,
            ibs_op_data2: 0,
            ibs_op_data3: 0,
            ibs_dc_linaddr: 0,
            bp_ibstgt_rip: 0,
            ic_ibst_extd_ctl: 0,
        }
    }
}

/// One guest context's complete control block: the Control Area
/// followed by the State-Save Area in a single physical frame.
#[derive(Clone, Copy, Debug, PartialEq, Eq)]
pub struct Vmcb {
    /// The Control Area, at the start of the frame.
    pub control_area: VmcbControlArea,
    /// The State-Save Area, immediately after the Control Area.
    pub state_save_area: VmcbStateSaveArea,
}

impl Vmcb {
    /// Every reserved bit range of the Control Area is zero.
    pub open spec fn wf(self) -> bool {
        self.control_area.wf()
    }

    /// Whether both areas are all zero, as a freshly allocated
    /// zero-filled frame leaves them.
    pub open spec fn is_cleared(self) -> bool {
        self.control_area.is_cleared() && self.state_save_area.is_cleared()
    }

    /// The all-zero control block a freshly allocated frame holds.
    pub fn new() -> (r: Self)
        ensures
            r.is_cleared(),
            r.wf(),
    {
        Vmcb { control_area: VmcbControlArea::new(), state_save_area: VmcbStateSaveArea::new() }
    }
}

} // verus!
