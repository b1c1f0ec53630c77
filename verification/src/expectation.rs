//! Expectation records: one tagged variant per syscall class, carrying the
//! arguments a real call must match and an optional override for the value to
//! return; plus the structured report produced when a call deviates.

use vstd::prelude::*;

use crate::outcome::CommandOutcome;
use crate::outcome::SubscribeOutcome;
use crate::outcome::YieldOutcome;
use crate::outcome::default_command_outcome;
use crate::outcome::default_subscribe_outcome;

verus! {

/// One anticipated syscall. A test pushes these onto the fake kernel's queue
/// in the order the driver under test is expected to issue them; the kernel
/// consumes them strictly front to back.
#[derive(Clone, Copy, Debug, PartialEq, Eq)]
#[allow(inconsistent_fields)]
pub enum ExpectedSyscall {
    YieldNoWait {
        /// If present, yield-no-wait returns this value verbatim. If absent,
        /// the outcome reflects whether an upcall was actually delivered.
        override_return: Option<YieldOutcome>,
    },
    YieldWait {
        /// If true, the yield delivers no upcall even if one is ready.
        skip_upcall: bool,
    },
    Subscribe {
        /// Matched value: the subscribe must name this driver.
        driver_id: u32,
        /// Matched value: the subscribe must name this slot.
        subscribe_slot: u32,
        /// If present, replaces the default success outcome.
        override_return: Option<SubscribeOutcome>,
    },
    Command {
        /// Matched values: the command must give exactly these four fields.
        driver_id: u32,
        command_id: u32,
        argument0: u32,
        argument1: u32,
        /// If present, replaces the default success outcome.
        override_return: Option<CommandOutcome>,
    },
}

/// The syscall a driver actually issued, with its arguments: the "actual"
/// half of a protocol-violation report.
#[derive(Clone, Copy, Debug, PartialEq, Eq)]
pub enum CalledSyscall {
    YieldNoWait,
    YieldWait,
    Subscribe { driver_id: u32, subscribe_slot: u32 },
    Command { driver_id: u32, command_id: u32, argument0: u32, argument1: u32 },
}

/// A protocol violation: the driver deviated from the declared sequence of
/// syscalls. Always fatal to the running test; the record names both sides
/// of the mismatch so the failure can be reported exactly.
#[derive(Clone, Copy, Debug, PartialEq, Eq)]
pub enum Violation {
    /// A call arrived while the expectation queue was already empty.
    QueueExhausted { actual: CalledSyscall },
    /// The head expectation does not match the call that arrived.
    WrongCall { expected: ExpectedSyscall, actual: CalledSyscall },
    /// A blocking yield found no ready upcall and was not told to skip
    /// delivery: a simulated deadlock.
    YieldWaitDeadlock,
}

/// Whether `e` is a `Command` expectation whose four matched fields equal the
/// given arguments exactly.
pub open spec fn is_matching_command(
    e: ExpectedSyscall,
    driver_id: u32,
    command_id: u32,
    argument0: u32,
    argument1: u32,
) -> bool {
    e matches ExpectedSyscall::Command {
        driver_id: d,
        command_id: c,
        argument0: a0,
        argument1: a1,
        override_return: _,
    } && d == driver_id && c == command_id && a0 == argument0 && a1 == argument1
}

/// Whether `e` is a `Subscribe` expectation whose matched fields equal the
/// given arguments exactly.
pub open spec fn is_matching_subscribe(
    e: ExpectedSyscall,
    driver_id: u32,
    subscribe_slot: u32,
) -> bool {
    e matches ExpectedSyscall::Subscribe { driver_id: d, subscribe_slot: s, override_return: _ }
        && d == driver_id && s == subscribe_slot
}

/// The outcome a matched `Command` expectation produces: the override if one
/// is present, the default success otherwise.
pub open spec fn command_return(e: ExpectedSyscall) -> CommandOutcome
    recommends
        e is Command,
{
    match e {
        ExpectedSyscall::Command { override_return: Some(o), .. } => o,
        _ => default_command_outcome(),
    }
}

/// The outcome a matched `Subscribe` expectation produces: the override if
/// one is present, the default success otherwise.
pub open spec fn subscribe_return(e: ExpectedSyscall) -> SubscribeOutcome
    recommends
        e is Subscribe,
{
    match e {
        ExpectedSyscall::Subscribe { override_return: Some(o), .. } => o,
        _ => default_subscribe_outcome(),
    }
}

/// The outcome a matched `YieldNoWait` expectation produces, given whether an
/// upcall was actually delivered during the yield: the override, if present,
/// wins regardless of delivery.
pub open spec fn yield_no_wait_return(e: ExpectedSyscall, upcall_ran: bool) -> YieldOutcome
    recommends
        e is YieldNoWait,
{
    match e {
        ExpectedSyscall::YieldNoWait { override_return: Some(o) } => o,
        _ => if upcall_ran {
            YieldOutcome::Upcall
        } else {
            YieldOutcome::NoUpcall
        },
    }
}

/// Whether a matched `YieldWait` expectation tells the kernel to skip upcall
/// delivery.
pub open spec fn yield_wait_skips(e: ExpectedSyscall) -> bool
    recommends
        e is YieldWait,
{
    match e {
        ExpectedSyscall::YieldWait { skip_upcall } => skip_upcall,
        _ => false,
    }
}

} // verus!
