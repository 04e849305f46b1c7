//! Core of a bare-metal hypervisor for AMD's hardware virtualization
//! extension (SVM).
//!
//! The crate models the hardware-defined Virtual Machine Control Block
//! (VMCB), the per-core enable/disable lifecycle of the extension, the
//! guest-state initialization algorithm, and the exit-reason taxonomy used
//! to classify why control returned to the hypervisor.
//!
//! Privileged instructions (`rdmsr`, `wrmsr`, `cpuid`, `vmload`, `vmrun`)
//! cannot be issued from verified code, so every decision this crate makes
//! is a function of an explicit [`svm::SvmHardware`] register model. A
//! privileged caller mirrors the physical registers into the model, lets
//! this crate decide and mutate the model, and applies the result with the
//! real instructions; a test drives the very same code with simulated
//! register values.

use vstd::prelude::*;

pub mod debug;
pub mod definitions;
pub mod encode;
pub mod fields;
pub mod frame;
pub mod layout;
pub mod percpu;
pub mod structs;
pub mod svm;
pub mod vcpu;
pub mod vmcb;

pub use definitions::{SvmExitInfo, SvmExitReason};
pub use percpu::SvmPreCpuState as ArchPerCpuState;
pub use vcpu::SvmVcpu as RvmVcpu;

verus! {

/// The error kinds that the virtualization core reports.
#[derive(Clone, Copy, Debug, PartialEq, Eq, Structural)]
pub enum RvmError {
    /// The processor lacks the virtualization feature; not retriable.
    Unsupported,
    /// The feature is already enabled, or firmware forbids enabling it;
    /// the caller may retry after quiescing.
    ResourceBusy,
    /// Guest or host state failed a consistency check; fatal to the
    /// current guest context.
    BadState,
    /// The frame allocator ran out of physical memory.
    OutOfMemory,
}

/// The result type used throughout the virtualization core.
pub type RvmResult<T = ()> = Result<T, RvmError>;

/// Process-wide initialization state with a two-phase lifecycle:
/// it starts incomplete and is completed exactly once by the bootstrap
/// path. No operation ever clears it, so the flag moves monotonically.
pub struct InitFlag {
    done: bool,
}

impl InitFlag {
    /// Whether bootstrap has completed.
    pub closed spec fn spec_done(self) -> bool {
        self.done
    }

    /// The state before bootstrap has run.
    pub fn new() -> (r: Self)
        ensures
            !r.spec_done(),
    {
        InitFlag { done: false }
    }

    /// Records that bootstrap completed. The flag only ever rises.
    pub fn complete(&mut self)
        ensures
            final(self).spec_done(),
    {
        self.done = true;
    }
}

/// Whether initialization has completed; read-only after bootstrap.
pub fn init_ok(flag: &InitFlag) -> (r: bool)
    ensures
        r == flag.spec_done(),
{
    flag.done
}

} // verus!
