//! Return-value types for each syscall class: a success/failure discriminant
//! plus a small payload, mirroring the values a real kernel hands back.

use vstd::prelude::*;

verus! {

/// Kernel-level error codes that a syscall can fail with.
#[derive(Clone, Copy, Debug, PartialEq, Eq, Structural)]
pub enum ErrorCode {
    Fail,
    Busy,
    Already,
    Invalid,
    NoSupport,
    NoDevice,
    NoMem,
}

/// Outcome of a yield-class syscall: whether an upcall ran during the yield.
#[derive(Clone, Copy, Debug, PartialEq, Eq, Structural)]
pub enum YieldOutcome {
    /// One upcall was delivered during the yield.
    Upcall,
    /// No upcall was delivered.
    NoUpcall,
}

/// Outcome of a command-class syscall: success with a numeric payload, or a
/// kernel error code.
#[derive(Clone, Copy, Debug, PartialEq, Eq, Structural)]
pub enum CommandOutcome {
    Success { value: u32 },
    Failure { error: ErrorCode },
}

/// Outcome of a subscribe-class syscall.
#[derive(Clone, Copy, Debug, PartialEq, Eq, Structural)]
pub enum SubscribeOutcome {
    Success,
    Failure { error: ErrorCode },
}

/// The outcome a matched command produces when no override is present.
pub open spec fn default_command_outcome() -> CommandOutcome {
    CommandOutcome::Success { value: 0 }
}

/// The outcome a matched subscribe produces when no override is present.
pub open spec fn default_subscribe_outcome() -> SubscribeOutcome {
    SubscribeOutcome::Success
}

} // verus!
