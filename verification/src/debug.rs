//! Diagnostic classification of the processor's operating mode from
//! the control-register values a privileged caller read.

use vstd::prelude::*;

verus! {

/// The processor operating modes the diagnostics distinguish.
#[derive(Clone, Copy, Debug, PartialEq, Eq, Structural)]
pub enum DebugOprationMode {
    /// Real-address mode: neither protection nor long mode is active.
    RealMode,
    /// Protected mode: CR0.PE is set.
    ProtectedMode,
    /// Long mode: the EFER extension bit is set while CR0.PE is clear.
    LongMode,
}

/// The mode the given register values classify as.
pub open spec fn spec_operating_mode(cr0: u64, efer: u64) -> DebugOprationMode {
    if cr0 & 1 != 0 {
        DebugOprationMode::ProtectedMode
    } else if efer & 1 != 0 {
        DebugOprationMode::LongMode
    } else {
        DebugOprationMode::RealMode
    }
}

/// Classifies the processor's operating mode from the CR0 and EFER
/// values the privileged caller read from the core.
pub fn operating_mode(cr0: u64, efer: u64) -> (r: DebugOprationMode)
    ensures
        r == spec_operating_mode(cr0, efer),
{
    if cr0 & 1 != 0 {
        DebugOprationMode::ProtectedMode
    } else if efer & 1 != 0 {
        DebugOprationMode::LongMode
    } else {
        DebugOprationMode::RealMode
    }
}

} // verus!
