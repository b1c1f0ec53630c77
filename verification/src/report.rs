//! The failure reporter: renders a protocol violation as a deterministic,
//! human-readable message naming both the expected and the actual call. The
//! abort itself is left to the unverified test harness around the library.

use vstd::prelude::*;

use crate::expectation::CalledSyscall;
use crate::expectation::ExpectedSyscall;
use crate::expectation::Violation;

verus! {

/// The character of one decimal digit.
pub open spec fn digit_char(d: nat) -> char
    recommends
        d < 10,
{
    if d == 0 {
        '0'
    } else if d == 1 {
        '1'
    } else if d == 2 {
        '2'
    } else if d == 3 {
        '3'
    } else if d == 4 {
        '4'
    } else if d == 5 {
        '5'
    } else if d == 6 {
        '6'
    } else if d == 7 {
        '7'
    } else if d == 8 {
        '8'
    } else {
        '9'
    }
}

/// The decimal rendering of a number, most significant digit first, without
/// leading zeroes (a single zero for zero itself).
pub open spec fn spec_decimal(n: nat) -> Seq<char>
    decreases n,
{
    if n < 10 {
        seq![digit_char(n)]
    } else {
        spec_decimal(n / 10).push(digit_char(n % 10))
    }
}

/// Appends the decimal rendering of `n`.
fn append_decimal(s: &mut String, n: u32)
    ensures
        final(s)@ == old(s)@ + spec_decimal(n as nat),
    decreases n,
{
    if n >= 10 {
        append_decimal(s, n / 10);
    }
    let digit: &str = match n % 10 {
        0 => "0",
        1 => "1",
        2 => "2",
        3 => "3",
        4 => "4",
        5 => "5",
        6 => "6",
        7 => "7",
        8 => "8",
        _ => "9",
    };
    s.append(digit);
    proof {
        reveal_strlit("0");
        reveal_strlit("1");
        reveal_strlit("2");
        reveal_strlit("3");
        reveal_strlit("4");
        reveal_strlit("5");
        reveal_strlit("6");
        reveal_strlit("7");
        reveal_strlit("8");
        reveal_strlit("9");
        assert(s@ =~= old(s)@ + spec_decimal(n as nat));
    }
}

/// The rendering of an actual call: its kind and, in declaration order, the
/// arguments it carried.
pub open spec fn spec_called_description(c: CalledSyscall) -> Seq<char> {
    match c {
        CalledSyscall::YieldNoWait => "yield-no-wait"@,
        CalledSyscall::YieldWait => "yield-wait"@,
        CalledSyscall::Subscribe { driver_id, subscribe_slot } => "subscribe(driver_id="@
            + spec_decimal(driver_id as nat) + ", subscribe_slot="@ + spec_decimal(
            subscribe_slot as nat,
        ) + ")"@,
        CalledSyscall::Command { driver_id, command_id, argument0, argument1 } => "command(driver_id="@
            + spec_decimal(driver_id as nat) + ", command_id="@ + spec_decimal(command_id as nat)
            + ", argument0="@ + spec_decimal(argument0 as nat) + ", argument1="@ + spec_decimal(
            argument1 as nat,
        ) + ")"@,
    }
}

/// The rendering of an expectation: its kind and its matched values; the
/// optional override does not identify the call and is not rendered.
pub open spec fn spec_expected_description(e: ExpectedSyscall) -> Seq<char> {
    match e {
        ExpectedSyscall::YieldNoWait { .. } => "yield-no-wait"@,
        ExpectedSyscall::YieldWait { skip_upcall } => if skip_upcall {
            "yield-wait(skip_upcall=true)"@
        } else {
            "yield-wait(skip_upcall=false)"@
        },
        ExpectedSyscall::Subscribe { driver_id, subscribe_slot, .. } => spec_called_description(
            CalledSyscall::Subscribe { driver_id, subscribe_slot },
        ),
        ExpectedSyscall::Command { driver_id, command_id, argument0, argument1, .. } => spec_called_description(
            CalledSyscall::Command { driver_id, command_id, argument0, argument1 },
        ),
    }
}

/// The full message of a violation, naming both the expected and the actual
/// call.
pub open spec fn spec_violation_description(v: Violation) -> Seq<char> {
    match v {
        Violation::QueueExhausted { actual } => "No system call was expected, but "@
            + spec_called_description(actual) + " was called."@,
        Violation::WrongCall { expected, actual } => "Expected system call "@
            + spec_expected_description(expected) + ", but "@ + spec_called_description(actual)
            + " was called instead."@,
        Violation::YieldWaitDeadlock => "yield-wait was called with no ready upcall and no skip flag; a real kernel would deadlock here."@,
    }
}

/// Appends the rendering of an actual call.
fn append_called(s: &mut String, c: &CalledSyscall)
    ensures
        final(s)@ == old(s)@ + spec_called_description(*c),
{
    match c {
        CalledSyscall::YieldNoWait => {
            s.append("yield-no-wait");
        },
        CalledSyscall::YieldWait => {
            s.append("yield-wait");
        },
        CalledSyscall::Subscribe { driver_id, subscribe_slot } => {
            s.append("subscribe(driver_id=");
            append_decimal(s, *driver_id);
            s.append(", subscribe_slot=");
            append_decimal(s, *subscribe_slot);
            s.append(")");
            proof {
                assert(s@ =~= old(s)@ + spec_called_description(*c));
            }
        },
        CalledSyscall::Command { driver_id, command_id, argument0, argument1 } => {
            s.append("command(driver_id=");
            append_decimal(s, *driver_id);
            s.append(", command_id=");
            append_decimal(s, *command_id);
            s.append(", argument0=");
            append_decimal(s, *argument0);
            s.append(", argument1=");
            append_decimal(s, *argument1);
            s.append(")");
            proof {
                assert(s@ =~= old(s)@ + spec_called_description(*c));
            }
        },
    }
}

/// Appends the rendering of an expectation.
fn append_expected(s: &mut String, e: &ExpectedSyscall)
    ensures
        final(s)@ == old(s)@ + spec_expected_description(*e),
{
    match e {
        ExpectedSyscall::YieldNoWait { .. } => {
            s.append("yield-no-wait");
        },
        ExpectedSyscall::YieldWait { skip_upcall } => {
            if *skip_upcall {
                s.append("yield-wait(skip_upcall=true)");
            } else {
                s.append("yield-wait(skip_upcall=false)");
            }
        },
        ExpectedSyscall::Subscribe { driver_id, subscribe_slot, .. } => {
            append_called(
                s,
                &(CalledSyscall::Subscribe {
                    driver_id: *driver_id,
                    subscribe_slot: *subscribe_slot,
                }),
            );
        },
        ExpectedSyscall::Command { driver_id, command_id, argument0, argument1, .. } => {
            append_called(
                s,
                &(CalledSyscall::Command {
                    driver_id: *driver_id,
                    command_id: *command_id,
                    argument0: *argument0,
                    argument1: *argument1,
                }),
            );
        },
    }
}

impl Violation {
    /// Renders this violation as the deterministic, human-readable message
    /// the failure policy demands: it names the expected and the actual call
    /// so that the exact protocol deviation is visible in the test's output.
    pub fn describe(&self) -> (s: String)
        ensures
            s@ == spec_violation_description(*self),
    {
        let mut s = String::new();
        match self {
            Violation::QueueExhausted { actual } => {
                s.append("No system call was expected, but ");
                append_called(&mut s, actual);
                s.append(" was called.");
            },
            Violation::WrongCall { expected, actual } => {
                s.append("Expected system call ");
                append_expected(&mut s, expected);
                s.append(", but ");
                append_called(&mut s, actual);
                s.append(" was called instead.");
            },
            Violation::YieldWaitDeadlock => {
                s.append(
                    "yield-wait was called with no ready upcall and no skip flag; a real kernel would deadlock here.",
                );
            },
        }
        proof {
            assert(s@ =~= spec_violation_description(*self));
        }
        s
    }
}

} // verus!
