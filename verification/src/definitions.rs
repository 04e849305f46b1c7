//! Exit-reason taxonomy: the closed set of numeric exit codes the
//! hardware (or, for negative pseudo codes, software) writes into the
//! Control Area, the semantic reasons they decode to, and the companion
//! decoder that renders any code as a short diagnostic description.

use vstd::prelude::*;

use crate::{RvmError, RvmResult};

verus! {

/// A raw exit or instruction-error code paired with its diagnostic text.
#[derive(Clone, Copy, Debug)]
pub struct SvmInstructionError(pub i32);

/// The semantic reasons a guest exit can decode to. Negative pseudo
/// codes are produced by software before any true hardware trap.
#[allow(non_camel_case_types)]
#[derive(Clone, Copy, Debug, PartialEq, Eq, Structural)]
pub enum SvmExitReason {
    /// Machine-check exception (`0x52`).
    VMEXIT_MC,
    /// Physical external interrupt (`0x60`).
    VMEXIT_INTR,
    /// Physical non-maskable interrupt (`0x61`).
    VMEXIT_NMI,
    /// Physical system-management interrupt (`0x62`).
    VMEXIT_SMI,
    /// Physical INIT signal (`0x63`).
    VMEXIT_INIT,
    /// Virtual interrupt window (`0x64`).
    VMEXIT_VINTR,
    /// PAUSE instruction intercept (`0x77`).
    VMEXIT_PAUSE,
    /// HLT instruction intercept (`0x78`).
    VMEXIT_HLT,
    /// Guest shutdown condition (`0x7f`).
    VMEXIT_SHUTDOWN,
    /// EFER write trap (`0x8f`).
    VMEXIT_EFER_WRITE_TRAP,
    /// CR0 write trap (`0x90`).
    VMEXIT_CR0_WRITE_TRAP,
    /// CR1 write trap (`0x91`).
    VMEXIT_CR1_WRITE_TRAP,
    /// CR2 write trap (`0x92`).
    VMEXIT_CR2_WRITE_TRAP,
    /// CR3 write trap (`0x93`).
    VMEXIT_CR3_WRITE_TRAP,
    /// CR4 write trap (`0x94`).
    VMEXIT_CR4_WRITE_TRAP,
    /// CR5 write trap (`0x95`).
    VMEXIT_CR5_WRITE_TRAP,
    /// CR6 write trap (`0x96`).
    VMEXIT_CR6_WRITE_TRAP,
    /// CR7 write trap (`0x97`).
    VMEXIT_CR7_WRITE_TRAP,
    /// CR8 write trap (`0x98`).
    VMEXIT_CR8_WRITE_TRAP,
    /// CR9 write trap (`0x99`).
    VMEXIT_CR9_WRITE_TRAP,
    /// CR10 write trap (`0x9a`).
    VMEXIT_CR10_WRITE_TRAP,
    /// CR11 write trap (`0x9b`).
    VMEXIT_CR11_WRITE_TRAP,
    /// CR12 write trap (`0x9c`).
    VMEXIT_CR12_WRITE_TRAP,
    /// CR13 write trap (`0x9d`).
    VMEXIT_CR13_WRITE_TRAP,
    /// CR14 write trap (`0x9e`).
    VMEXIT_CR14_WRITE_TRAP,
    /// CR15 write trap (`0x9f`).
    VMEXIT_CR15_WRITE_TRAP,
    /// Bus-lock threshold reached (`0xa5`).
    VMEXIT_BUSLOCK,
    /// HLT of an idle guest (`0xa6`).
    VMEXIT_IDLE_HLT,
    /// Nested page fault (`0x400`).
    VMEXIT_NPF,
    /// VMGEXIT guest-hypervisor communication (`0x403`).
    VMEXIT_VMGEXIT,
    /// Invalid guest state, detected before entry (`-1`).
    VMEXIT_INVALID,
    /// The control block was busy (`-2`).
    VMEXIT_BUSY,
    /// A sibling hardware thread was not idle (`-3`).
    VMEXIT_IDLE_REQUIRED,
    /// Invalid performance-counter state (`-4`).
    VMEXIT_INVALID_PMC,
}

/// Whether a raw code belongs to the defined exit-code set.
pub open spec fn is_defined_exit_code(c: int) -> bool {
    ||| c == 0x52
    ||| c == 0x60
    ||| c == 0x61
    ||| c == 0x62
    ||| c == 0x63
    ||| c == 0x64
    ||| c == 0x77
    ||| c == 0x78
    ||| c == 0x7f
    ||| c == 0x8f
    ||| 0x90 <= c <= 0x9f
    ||| c == 0xa5
    ||| c == 0xa6
    ||| c == 0x400
    ||| c == 0x403
    ||| -4 <= c <= -1
}

/// The numeric code a reason encodes to.
pub open spec fn spec_exit_code(r: SvmExitReason) -> int {
    match r {
        SvmExitReason::VMEXIT_MC => 0x52,
        SvmExitReason::VMEXIT_INTR => 0x60,
        SvmExitReason::VMEXIT_NMI => 0x61,
        SvmExitReason::VMEXIT_SMI => 0x62,
        SvmExitReason::VMEXIT_INIT => 0x63,
        SvmExitReason::VMEXIT_VINTR => 0x64,
        SvmExitReason::VMEXIT_PAUSE => 0x77,
        SvmExitReason::VMEXIT_HLT => 0x78,
        SvmExitReason::VMEXIT_SHUTDOWN => 0x7f,
        SvmExitReason::VMEXIT_EFER_WRITE_TRAP => 0x8f,
        SvmExitReason::VMEXIT_CR0_WRITE_TRAP => 0x90,
        SvmExitReason::VMEXIT_CR1_WRITE_TRAP => 0x91,
        SvmExitReason::VMEXIT_CR2_WRITE_TRAP => 0x92,
        SvmExitReason::VMEXIT_CR3_WRITE_TRAP => 0x93,
        SvmExitReason::VMEXIT_CR4_WRITE_TRAP => 0x94,
        SvmExitReason::VMEXIT_CR5_WRITE_TRAP => 0x95,
        SvmExitReason::VMEXIT_CR6_WRITE_TRAP => 0x96,
        SvmExitReason::VMEXIT_CR7_WRITE_TRAP => 0x97,
        SvmExitReason::VMEXIT_CR8_WRITE_TRAP => 0x98,
        SvmExitReason::VMEXIT_CR9_WRITE_TRAP => 0x99,
        SvmExitReason::VMEXIT_CR10_WRITE_TRAP => 0x9a,
        SvmExitReason::VMEXIT_CR11_WRITE_TRAP => 0x9b,
        SvmExitReason::VMEXIT_CR12_WRITE_TRAP => 0x9c,
        SvmExitReason::VMEXIT_CR13_WRITE_TRAP => 0x9d,
        SvmExitReason::VMEXIT_CR14_WRITE_TRAP => 0x9e,
        SvmExitReason::VMEXIT_CR15_WRITE_TRAP => 0x9f,
        SvmExitReason::VMEXIT_BUSLOCK => 0xa5,
        SvmExitReason::VMEXIT_IDLE_HLT => 0xa6,
        SvmExitReason::VMEXIT_NPF => 0x400,
        SvmExitReason::VMEXIT_VMGEXIT => 0x403,
        SvmExitReason::VMEXIT_INVALID => -1,
        SvmExitReason::VMEXIT_BUSY => -2,
        SvmExitReason::VMEXIT_IDLE_REQUIRED => -3,
        SvmExitReason::VMEXIT_INVALID_PMC => -4,
    }
}

/// The reason a raw code decodes to; a code outside the defined set
/// decodes to the explicit invalid variant, never to an arbitrary
/// valid reason.
pub open spec fn spec_reason_of_code(c: int) -> SvmExitReason {
    if c == 0x52 {
        SvmExitReason::VMEXIT_MC
    } else if c == 0x60 {
        SvmExitReason::VMEXIT_INTR
    } else if c == 0x61 {
        SvmExitReason::VMEXIT_NMI
    } else if c == 0x62 {
        SvmExitReason::VMEXIT_SMI
    } else if c == 0x63 {
        SvmExitReason::VMEXIT_INIT
    } else if c == 0x64 {
        SvmExitReason::VMEXIT_VINTR
    } else if c == 0x77 {
        SvmExitReason::VMEXIT_PAUSE
    } else if c == 0x78 {
        SvmExitReason::VMEXIT_HLT
    } else if c == 0x7f {
        SvmExitReason::VMEXIT_SHUTDOWN
    } else if c == 0x8f {
        SvmExitReason::VMEXIT_EFER_WRITE_TRAP
    } else if c == 0x90 {
        SvmExitReason::VMEXIT_CR0_WRITE_TRAP
    } else if c == 0x91 {
        SvmExitReason::VMEXIT_CR1_WRITE_TRAP
    } else if c == 0x92 {
        SvmExitReason::VMEXIT_CR2_WRITE_TRAP
    } else if c == 0x93 {
        SvmExitReason::VMEXIT_CR3_WRITE_TRAP
    } else if c == 0x94 {
        SvmExitReason::VMEXIT_CR4_WRITE_TRAP
    } else if c == 0x95 {
        SvmExitReason::VMEXIT_CR5_WRITE_TRAP
    } else if c == 0x96 {
        SvmExitReason::VMEXIT_CR6_WRITE_TRAP
    } else if c == 0x97 {
        SvmExitReason::VMEXIT_CR7_WRITE_TRAP
    } else if c == 0x98 {
        SvmExitReason::VMEXIT_CR8_WRITE_TRAP
    } else if c == 0x99 {
        SvmExitReason::VMEXIT_CR9_WRITE_TRAP
    } else if c == 0x9a {
        SvmExitReason::VMEXIT_CR10_WRITE_TRAP
    } else if c == 0x9b {
        SvmExitReason::VMEXIT_CR11_WRITE_TRAP
    } else if c == 0x9c {
        SvmExitReason::VMEXIT_CR12_WRITE_TRAP
    } else if c == 0x9d {
        SvmExitReason::VMEXIT_CR13_WRITE_TRAP
    } else if c == 0x9e {
        SvmExitReason::VMEXIT_CR14_WRITE_TRAP
    } else if c == 0x9f {
        SvmExitReason::VMEXIT_CR15_WRITE_TRAP
    } else if c == 0xa5 {
        SvmExitReason::VMEXIT_BUSLOCK
    } else if c == 0xa6 {
        SvmExitReason::VMEXIT_IDLE_HLT
    } else if c == 0x400 {
        SvmExitReason::VMEXIT_NPF
    } else if c == 0x403 {
        SvmExitReason::VMEXIT_VMGEXIT
    } else if c == -2 {
        SvmExitReason::VMEXIT_BUSY
    } else if c == -3 {
        SvmExitReason::VMEXIT_IDLE_REQUIRED
    } else if c == -4 {
        SvmExitReason::VMEXIT_INVALID_PMC
    } else {
        SvmExitReason::VMEXIT_INVALID
    }
}

impl SvmExitReason {
    /// The numeric code this reason encodes to.
    pub fn code(self) -> (c: i32)
        ensures
            c as int == spec_exit_code(self),
    {
        match self {
            SvmExitReason::VMEXIT_MC => 0x52,
            SvmExitReason::VMEXIT_INTR => 0x60,
            SvmExitReason::VMEXIT_NMI => 0x61,
            SvmExitReason::VMEXIT_SMI => 0x62,
            SvmExitReason::VMEXIT_INIT => 0x63,
            SvmExitReason::VMEXIT_VINTR => 0x64,
            SvmExitReason::VMEXIT_PAUSE => 0x77,
            SvmExitReason::VMEXIT_HLT => 0x78,
            SvmExitReason::VMEXIT_SHUTDOWN => 0x7f,
            SvmExitReason::VMEXIT_EFER_WRITE_TRAP => 0x8f,
            SvmExitReason::VMEXIT_CR0_WRITE_TRAP => 0x90,
            SvmExitReason::VMEXIT_CR1_WRITE_TRAP => 0x91,
            SvmExitReason::VMEXIT_CR2_WRITE_TRAP => 0x92,
            SvmExitReason::VMEXIT_CR3_WRITE_TRAP => 0x93,
            SvmExitReason::VMEXIT_CR4_WRITE_TRAP => 0x94,
            SvmExitReason::VMEXIT_CR5_WRITE_TRAP => 0x95,
            SvmExitReason::VMEXIT_CR6_WRITE_TRAP => 0x96,
            SvmExitReason::VMEXIT_CR7_WRITE_TRAP => 0x97,
            SvmExitReason::VMEXIT_CR8_WRITE_TRAP => 0x98,
            SvmExitReason::VMEXIT_CR9_WRITE_TRAP => 0x99,
            SvmExitReason::VMEXIT_CR10_WRITE_TRAP => 0x9a,
            SvmExitReason::VMEXIT_CR11_WRITE_TRAP => 0x9b,
            SvmExitReason::VMEXIT_CR12_WRITE_TRAP => 0x9c,
            SvmExitReason::VMEXIT_CR13_WRITE_TRAP => 0x9d,
            SvmExitReason::VMEXIT_CR14_WRITE_TRAP => 0x9e,
            SvmExitReason::VMEXIT_CR15_WRITE_TRAP => 0x9f,
            SvmExitReason::VMEXIT_BUSLOCK => 0xa5,
            SvmExitReason::VMEXIT_IDLE_HLT => 0xa6,
            SvmExitReason::VMEXIT_NPF => 0x400,
            SvmExitReason::VMEXIT_VMGEXIT => 0x403,
            SvmExitReason::VMEXIT_INVALID => -1,
            SvmExitReason::VMEXIT_BUSY => -2,
            SvmExitReason::VMEXIT_IDLE_REQUIRED => -3,
            SvmExitReason::VMEXIT_INVALID_PMC => -4,
        }
    }

    /// Decodes a raw exit code; a code outside the defined set yields
    /// the explicit invalid variant.
    pub fn from_code(c: i32) -> (r: Self)
        ensures
            r == spec_reason_of_code(c as int),
    {
        if c == 0x52 {
            SvmExitReason::VMEXIT_MC
        } else if c == 0x60 {
            SvmExitReason::VMEXIT_INTR
        } else if c == 0x61 {
            SvmExitReason::VMEXIT_NMI
        } else if c == 0x62 {
            SvmExitReason::VMEXIT_SMI
        } else if c == 0x63 {
            SvmExitReason::VMEXIT_INIT
        } else if c == 0x64 {
            SvmExitReason::VMEXIT_VINTR
        } else if c == 0x77 {
            SvmExitReason::VMEXIT_PAUSE
        } else if c == 0x78 {
            SvmExitReason::VMEXIT_HLT
        } else if c == 0x7f {
            SvmExitReason::VMEXIT_SHUTDOWN
        } else if c == 0x8f {
            SvmExitReason::VMEXIT_EFER_WRITE_TRAP
        } else if c == 0x90 {
            SvmExitReason::VMEXIT_CR0_WRITE_TRAP
        } else if c == 0x91 {
            SvmExitReason::VMEXIT_CR1_WRITE_TRAP
        } else if c == 0x92 {
            SvmExitReason::VMEXIT_CR2_WRITE_TRAP
        } else if c == 0x93 {
            SvmExitReason::VMEXIT_CR3_WRITE_TRAP
        } else if c == 0x94 {
            SvmExitReason::VMEXIT_CR4_WRITE_TRAP
        } else if c == 0x95 {
            SvmExitReason::VMEXIT_CR5_WRITE_TRAP
        } else if c == 0x96 {
            SvmExitReason::VMEXIT_CR6_WRITE_TRAP
        } else if c == 0x97 {
            SvmExitReason::VMEXIT_CR7_WRITE_TRAP
        } else if c == 0x98 {
            SvmExitReason::VMEXIT_CR8_WRITE_TRAP
        } else if c == 0x99 {
            SvmExitReason::VMEXIT_CR9_WRITE_TRAP
        } else if c == 0x9a {
            SvmExitReason::VMEXIT_CR10_WRITE_TRAP
        } else if c == 0x9b {
            SvmExitReason::VMEXIT_CR11_WRITE_TRAP
        } else if c == 0x9c {
            SvmExitReason::VMEXIT_CR12_WRITE_TRAP
        } else if c == 0x9d {
            SvmExitReason::VMEXIT_CR13_WRITE_TRAP
        } else if c == 0x9e {
            SvmExitReason::VMEXIT_CR14_WRITE_TRAP
        } else if c == 0x9f {
            SvmExitReason::VMEXIT_CR15_WRITE_TRAP
        } else if c == 0xa5 {
            SvmExitReason::VMEXIT_BUSLOCK
        } else if c == 0xa6 {
            SvmExitReason::VMEXIT_IDLE_HLT
        } else if c == 0x400 {
            SvmExitReason::VMEXIT_NPF
        } else if c == 0x403 {
            SvmExitReason::VMEXIT_VMGEXIT
        } else if c == -2 {
            SvmExitReason::VMEXIT_BUSY
        } else if c == -3 {
            SvmExitReason::VMEXIT_IDLE_REQUIRED
        } else if c == -4 {
            SvmExitReason::VMEXIT_INVALID_PMC
        } else {
            SvmExitReason::VMEXIT_INVALID
        }
    }
}

/// Decoding a defined exit code and encoding the result again yields
/// the same code: the taxonomy round-trips on the defined set.
pub proof fn lemma_exit_code_round_trip(c: int)
    requires
        is_defined_exit_code(c),
    ensures
        spec_exit_code(spec_reason_of_code(c)) == c,
{
}

/// Every reason decodes back from its own code: encoding is injective
/// and decoding inverts it on the whole taxonomy.
pub proof fn lemma_exit_reason_round_trip(r: SvmExitReason)
    ensures
        is_defined_exit_code(spec_exit_code(r)),
        spec_reason_of_code(spec_exit_code(r)) == r,
{
}

/// A code outside the defined set decodes to the explicit invalid
/// variant, never to an arbitrary valid reason.
pub proof fn lemma_undefined_code_is_invalid(c: int)
    requires
        !is_defined_exit_code(c),
    ensures
        spec_reason_of_code(c) == SvmExitReason::VMEXIT_INVALID,
{
}

/// The diagnostic description of a raw code; a code outside the defined
/// set is rendered as the invalid marker.
pub open spec fn error_text(c: int) -> Seq<char> {
    if c == 0x52 {
        "Machine check exception"@
    } else if c == 0x60 {
        "Physical INTR"@
    } else if c == 0x61 {
        "Physical NMI"@
    } else if c == 0x62 {
        "Physical SMI"@
    } else if c == 0x63 {
        "Physical INIT"@
    } else if c == 0x64 {
        "Virtual INTR"@
    } else if c == 0x77 {
        "PAUSE instruction"@
    } else if c == 0x78 {
        "HLT instruction"@
    } else if c == 0x7f {
        "Shutdown"@
    } else if c == 0x8f {
        "EFER write trap"@
    } else if c == 0x90 {
        "CR0 write trap"@
    } else if c == 0x91 {
        "CR1 write trap"@
    } else if c == 0x92 {
        "CR2 write trap"@
    } else if c == 0x93 {
        "CR3 write trap"@
    } else if c == 0x94 {
        "CR4 write trap"@
    } else if c == 0x95 {
        "CR5 write trap"@
    } else if c == 0x96 {
        "CR6 write trap"@
    } else if c == 0x97 {
        "CR7 write trap"@
    } else if c == 0x98 {
        "CR8 write trap"@
    } else if c == 0x99 {
        "CR9 write trap"@
    } else if c == 0x9a {
        "CR10 write trap"@
    } else if c == 0x9b {
        "CR11 write trap"@
    } else if c == 0x9c {
        "CR12 write trap"@
    } else if c == 0x9d {
        "CR13 write trap"@
    } else if c == 0x9e {
        "CR14 write trap"@
    } else if c == 0x9f {
        "CR15 write trap"@
    } else if c == 0xa5 {
        "Bus Lock Threshold"@
    } else if c == 0xa6 {
        "HLT instruction of idle"@
    } else if c == 0x400 {
        "Only if PFCODE[3] is 0"@
    } else if c == 0x403 {
        "VMGEXIT instruction"@
    } else if c == -1 {
        "Invalid guest state"@
    } else if c == -2 {
        "Busy bit was set in VMSA"@
    } else if c == -3 {
        "The sibling thread is not idle"@
    } else if c == -4 {
        "Invalid PMC state"@
    } else {
        "[INVALID]"@
    }
}

impl SvmInstructionError {
    /// The diagnostic description of this code.
    pub fn as_str(&self) -> (r: &str)
        ensures
            r@ == error_text(self.0 as int),
    {
        if self.0 == 0x52 {
            "Machine check exception"
        } else if self.0 == 0x60 {
            "Physical INTR"
        } else if self.0 == 0x61 {
            "Physical NMI"
        } else if self.0 == 0x62 {
            "Physical SMI"
        } else if self.0 == 0x63 {
            "Physical INIT"
        } else if self.0 == 0x64 {
            "Virtual INTR"
        } else if self.0 == 0x77 {
            "PAUSE instruction"
        } else if self.0 == 0x78 {
            "HLT instruction"
        } else if self.0 == 0x7f {
            "Shutdown"
        } else if self.0 == 0x8f {
            "EFER write trap"
        } else if self.0 == 0x90 {
            "CR0 write trap"
        } else if self.0 == 0x91 {
            "CR1 write trap"
        } else if self.0 == 0x92 {
            "CR2 write trap"
        } else if self.0 == 0x93 {
            "CR3 write trap"
        } else if self.0 == 0x94 {
            "CR4 write trap"
        } else if self.0 == 0x95 {
            "CR5 write trap"
        } else if self.0 == 0x96 {
            "CR6 write trap"
        } else if self.0 == 0x97 {
            "CR7 write trap"
        } else if self.0 == 0x98 {
            "CR8 write trap"
        } else if self.0 == 0x99 {
            "CR9 write trap"
        } else if self.0 == 0x9a {
            "CR10 write trap"
        } else if self.0 == 0x9b {
            "CR11 write trap"
        } else if self.0 == 0x9c {
            "CR12 write trap"
        } else if self.0 == 0x9d {
            "CR13 write trap"
        } else if self.0 == 0x9e {
            "CR14 write trap"
        } else if self.0 == 0x9f {
            "CR15 write trap"
        } else if self.0 == 0xa5 {
            "Bus Lock Threshold"
        } else if self.0 == 0xa6 {
            "HLT instruction of idle"
        } else if self.0 == 0x400 {
            "Only if PFCODE[3] is 0"
        } else if self.0 == 0x403 {
            "VMGEXIT instruction"
        } else if self.0 == -1 {
            "Invalid guest state"
        } else if self.0 == -2 {
            "Busy bit was set in VMSA"
        } else if self.0 == -3 {
            "The sibling thread is not idle"
        } else if self.0 == -4 {
            "Invalid PMC state"
        } else {
            "[INVALID]"
        }
    }
}

impl From<i32> for SvmInstructionError {
    /// Wraps a raw code for description.
    fn from(value: i32) -> (r: Self) {
        SvmInstructionError(value)
    }
}

impl vstd::std_specs::convert::FromSpecImpl<i32> for SvmInstructionError {
    open spec fn obeys_from_spec() -> bool {
        true
    }

    open spec fn from_spec(value: i32) -> Self {
        SvmInstructionError(value)
    }
}

/// The taxonomy and the description decoder stay in lock-step: a code
/// has a description other than the invalid marker exactly when it
/// belongs to the defined exit-code set.
pub proof fn lemma_taxonomy_description_lockstep(c: int)
    ensures
        is_defined_exit_code(c) <==> error_text(c) != "[INVALID]"@,
{
    reveal_strlit("[INVALID]");
    if is_defined_exit_code(c) {
        if c == 0x52 {
            reveal_strlit("Machine check exception");
        } else if c == 0x60 {
            reveal_strlit("Physical INTR");
        } else if c == 0x61 {
            reveal_strlit("Physical NMI");
        } else if c == 0x62 {
            reveal_strlit("Physical SMI");
        } else if c == 0x63 {
            reveal_strlit("Physical INIT");
        } else if c == 0x64 {
            reveal_strlit("Virtual INTR");
        } else if c == 0x77 {
            reveal_strlit("PAUSE instruction");
        } else if c == 0x78 {
            reveal_strlit("HLT instruction");
        } else if c == 0x7f {
            reveal_strlit("Shutdown");
        } else if c == 0x8f {
            reveal_strlit("EFER write trap");
        } else if c == 0x90 {
            reveal_strlit("CR0 write trap");
        } else if c == 0x91 {
            reveal_strlit("CR1 write trap");
        } else if c == 0x92 {
            reveal_strlit("CR2 write trap");
        } else if c == 0x93 {
            reveal_strlit("CR3 write trap");
        } else if c == 0x94 {
            reveal_strlit("CR4 write trap");
        } else if c == 0x95 {
            reveal_strlit("CR5 write trap");
        } else if c == 0x96 {
            reveal_strlit("CR6 write trap");
        } else if c == 0x97 {
            reveal_strlit("CR7 write trap");
        } else if c == 0x98 {
            reveal_strlit("CR8 write trap");
        } else if c == 0x99 {
            reveal_strlit("CR9 write trap");
        } else if c == 0x9a {
            reveal_strlit("CR10 write trap");
        } else if c == 0x9b {
            reveal_strlit("CR11 write trap");
        } else if c == 0x9c {
            reveal_strlit("CR12 write trap");
        } else if c == 0x9d {
            reveal_strlit("CR13 write trap");
        } else if c == 0x9e {
            reveal_strlit("CR14 write trap");
        } else if c == 0x9f {
            reveal_strlit("CR15 write trap");
        } else if c == 0xa5 {
            reveal_strlit("Bus Lock Threshold");
        } else if c == 0xa6 {
            reveal_strlit("HLT instruction of idle");
        } else if c == 0x400 {
            reveal_strlit("Only if PFCODE[3] is 0");
        } else if c == 0x403 {
            reveal_strlit("VMGEXIT instruction");
        } else if c == -1 {
            reveal_strlit("Invalid guest state");
        } else if c == -2 {
            reveal_strlit("Busy bit was set in VMSA");
        } else if c == -3 {
            reveal_strlit("The sibling thread is not idle");
        } else {
            reveal_strlit("Invalid PMC state");
        }
        assert(error_text(c).len() != "[INVALID]"@.len());
    }
}

/// The outcome of a guest exit, decoded from the Control Area's
/// hardware-written fields after `run` returns.
#[derive(Clone, Copy, Debug)]
pub struct SvmExitInfo {
    /// Whether hardware rejected the guest state before any guest
    /// instruction executed.
    pub entry_failure: bool,
    /// The decoded exit reason.
    pub exit_reason: SvmExitReason,
    /// The length in bytes of the intercepted instruction, where the
    /// exit defines one.
    pub exit_instruction_length: u32,
    /// The guest instruction pointer at the moment of the exit.
    pub guest_rip: usize,
}

impl SvmExitInfo {
    /// Decodes the raw exit fields read back from the Control Area.
    /// The exit-code field is 64 bits wide in the hardware; every
    /// defined code fits the taxonomy's 32-bit range, so a wider value
    /// is by definition undecodable and yields the invalid variant.
    pub fn from_exit(code: i64, exit_instruction_length: u32, guest_rip: usize) -> (r: Self)
        ensures
            r.exit_reason == spec_reason_of_code(code as int),
            r.entry_failure <==> code == -1,
            r.exit_instruction_length == exit_instruction_length,
            r.guest_rip == guest_rip,
    {
        let exit_reason = if i32::MIN as i64 <= code && code <= i32::MAX as i64 {
            SvmExitReason::from_code(code as i32)
        } else {
            SvmExitReason::VMEXIT_INVALID
        };
        SvmExitInfo {
            entry_failure: code == -1,
            exit_reason,
            exit_instruction_length,
            guest_rip,
        }
    }

    /// Guards the State-Save Area: guest-state fields may be trusted
    /// only after this check passes, since an entry failure leaves them
    /// stale or undefined.
    pub fn check_entry(&self) -> (r: RvmResult)
        ensures
            (r is Ok) <==> !self.entry_failure,
            self.entry_failure ==> r == Err::<(), RvmError>(RvmError::BadState),
    {
        if self.entry_failure {
            Err(RvmError::BadState)
        } else {
            Ok(())
        }
    }
}

} // verus!
