//! The fake kernel: the single dispatcher through which every syscall of the
//! driver under test flows. On each call it pops the next expectation,
//! validates that the call matches, returns the (possibly overridden) value,
//! and drives the upcall registry on yields.

use vstd::prelude::*;

use crate::expectation::CalledSyscall;
use crate::expectation::ExpectedSyscall;
use crate::expectation::Violation;
use crate::expectation::command_return;
use crate::expectation::is_matching_command;
use crate::expectation::is_matching_subscribe;
use crate::expectation::subscribe_return;
use crate::expectation::yield_no_wait_return;
use crate::expectation::yield_wait_skips;
use crate::outcome::CommandOutcome;
use crate::outcome::SubscribeOutcome;
use crate::outcome::YieldOutcome;
use crate::upcall::PendingUpcall;
use crate::upcall::UpcallEvent;
use crate::upcall::UpcallRegistry;
use crate::upcall::event_of;
use crate::upcall::first_ready;
use crate::upcall::first_waiting;
use crate::upcall::has_ready;

verus! {

/// A fake kernel instance: one per test. Seeded with the expected syscall
/// sequence and zero or more pending upcalls, exercised by calling driver
/// code, then inspected (the expectation queue must be empty) and dropped.
pub struct Kernel {
    expectations: Vec<ExpectedSyscall>,
    upcalls: UpcallRegistry,
}

impl Kernel {
    /// The expectations not yet consumed, front of the queue first.
    pub closed spec fn exps(&self) -> Seq<ExpectedSyscall> {
        self.expectations@
    }

    /// The registered upcalls, oldest first.
    pub closed spec fn ups(&self) -> Seq<PendingUpcall> {
        self.upcalls.entries()
    }

    /// A fresh kernel with no expectations and no pending upcalls.
    pub fn new() -> (k: Kernel)
        ensures
            k.exps() == Seq::<ExpectedSyscall>::empty(),
            k.ups() == Seq::<PendingUpcall>::empty(),
    {
        Kernel { expectations: Vec::new(), upcalls: UpcallRegistry::new() }
    }

    /// Test setup: appends one expectation to the tail of the queue.
    pub fn push_expected_syscall(&mut self, e: ExpectedSyscall)
        ensures
            final(self).exps() == old(self).exps().push(e),
            final(self).ups() == old(self).ups(),
    {
        self.expectations.push(e);
    }

    /// Test setup: stores a pending, not-yet-ready upcall, as a subscription
    /// made before the test body runs would.
    pub fn register_pending_upcall(&mut self, driver_id: u32, subscribe_slot: u32)
        ensures
            final(self).exps() == old(self).exps(),
            final(self).ups() == old(self).ups().push(
                (PendingUpcall {
                    driver_id,
                    subscribe_slot,
                    ready: false,
                    argument0: 0,
                    argument1: 0,
                }),
            ),
    {
        self.upcalls.register(driver_id, subscribe_slot);
    }

    /// Test setup: simulates the external event a subscription waits for,
    /// readying the oldest matching not-yet-ready upcall with the arguments
    /// its callback will receive. Returns whether such an upcall existed.
    pub fn mark_ready(
        &mut self,
        driver_id: u32,
        subscribe_slot: u32,
        argument0: u32,
        argument1: u32,
    ) -> (found: bool)
        ensures
            final(self).exps() == old(self).exps(),
            ({
                let k = first_waiting(old(self).ups(), driver_id, subscribe_slot);
                if k < old(self).ups().len() {
                    found && final(self).ups() == old(self).ups().update(
                        k,
                        (PendingUpcall {
                            driver_id,
                            subscribe_slot,
                            ready: true,
                            argument0,
                            argument1,
                        }),
                    )
                } else {
                    !found && final(self).ups() == old(self).ups()
                }
            }),
    {
        self.upcalls.mark_ready(driver_id, subscribe_slot, argument0, argument1)
    }

    /// End-of-test inspection: how many expectations were never consumed.
    /// Zero proves every expected call actually happened.
    pub fn expectations_remaining(&self) -> (n: usize)
        ensures
            n == self.exps().len(),
    {
        self.expectations.len()
    }

    /// How many upcalls are registered, ready or not.
    pub fn pending_upcall_count(&self) -> (n: usize)
        ensures
            n == self.ups().len(),
    {
        self.upcalls.len()
    }

    /// Whether some registered upcall is ready for delivery.
    pub fn any_upcall_ready(&self) -> (r: bool)
        ensures
            r == has_ready(self.ups()),
    {
        self.upcalls.any_ready()
    }

    /// The non-blocking yield. Consumes the head expectation, which must be
    /// `YieldNoWait`; delivers at most one ready upcall opportunistically;
    /// and returns the overridden outcome if one was declared, otherwise an
    /// outcome reflecting whether an upcall was delivered. The delivered
    /// event, if any, is handed back so the caller can invoke the recorded
    /// callback target.
    pub fn yield_no_wait(&mut self) -> (r: Result<(YieldOutcome, Option<UpcallEvent>), Violation>)
        ensures
            match r {
                Ok(p) => {
                    let k = first_ready(old(self).ups());
                    &&& old(self).exps().len() > 0
                    &&& old(self).exps()[0] is YieldNoWait
                    &&& final(self).exps() == old(self).exps().drop_first()
                    &&& if k < old(self).ups().len() {
                        p.1 == Some(event_of(old(self).ups()[k])) && final(self).ups() == old(
                            self,
                        ).ups().remove(k)
                    } else {
                        p.1 is None && final(self).ups() == old(self).ups()
                    }
                    &&& p.0 == yield_no_wait_return(
                        old(self).exps()[0],
                        k < old(self).ups().len(),
                    )
                },
                Err(v) => {
                    &&& final(self).exps() == old(self).exps()
                    &&& final(self).ups() == old(self).ups()
                    &&& if old(self).exps().len() == 0 {
                        v == (Violation::QueueExhausted { actual: CalledSyscall::YieldNoWait })
                    } else {
                        old(self).exps()[0] !is YieldNoWait && v == (Violation::WrongCall {
                            expected: old(self).exps()[0],
                            actual: CalledSyscall::YieldNoWait,
                        })
                    }
                },
            },
    {
        if self.expectations.len() == 0 {
            return Err(Violation::QueueExhausted { actual: CalledSyscall::YieldNoWait });
        }
        let head = self.expectations[0];
        match head {
            ExpectedSyscall::YieldNoWait { override_return } => {
                let _ = self.expectations.remove(0);
                proof {
                    assert(self.expectations@ =~= old(self).expectations@.drop_first());
                }
                let delivered = self.upcalls.deliver_one();
                let ran = delivered.is_some();
                let outcome = match override_return {
                    Some(o) => o,
                    None => if ran {
                        YieldOutcome::Upcall
                    } else {
                        YieldOutcome::NoUpcall
                    },
                };
                Ok((outcome, delivered))
            },
            _ => Err(Violation::WrongCall { expected: head, actual: CalledSyscall::YieldNoWait }),
        }
    }

    /// The blocking yield. Consumes the head expectation, which must be
    /// `YieldWait`. Unless the expectation says to skip delivery, exactly one
    /// ready upcall is delivered; a blocking yield with nothing ready and no
    /// skip flag is a simulated deadlock and fails loudly instead of hanging.
    pub fn yield_wait(&mut self) -> (r: Result<Option<UpcallEvent>, Violation>)
        ensures
            match r {
                Ok(opt) => {
                    let e = old(self).exps()[0];
                    let k = first_ready(old(self).ups());
                    &&& old(self).exps().len() > 0
                    &&& e is YieldWait
                    &&& final(self).exps() == old(self).exps().drop_first()
                    &&& if yield_wait_skips(e) {
                        opt is None && final(self).ups() == old(self).ups()
                    } else {
                        &&& k < old(self).ups().len()
                        &&& opt == Some(event_of(old(self).ups()[k]))
                        &&& final(self).ups() == old(self).ups().remove(k)
                    }
                },
                Err(v) => {
                    &&& final(self).exps() == old(self).exps()
                    &&& final(self).ups() == old(self).ups()
                    &&& if old(self).exps().len() == 0 {
                        v == (Violation::QueueExhausted { actual: CalledSyscall::YieldWait })
                    } else if !(old(self).exps()[0] is YieldWait) {
                        v == (Violation::WrongCall {
                            expected: old(self).exps()[0],
                            actual: CalledSyscall::YieldWait,
                        })
                    } else {
                        &&& !yield_wait_skips(old(self).exps()[0])
                        &&& !has_ready(old(self).ups())
                        &&& v == Violation::YieldWaitDeadlock
                    }
                },
            },
    {
        if self.expectations.len() == 0 {
            return Err(Violation::QueueExhausted { actual: CalledSyscall::YieldWait });
        }
        let head = self.expectations[0];
        match head {
            ExpectedSyscall::YieldWait { skip_upcall } => {
                if skip_upcall {
                    let _ = self.expectations.remove(0);
                    proof {
                        assert(self.expectations@ =~= old(self).expectations@.drop_first());
                    }
                    Ok(None)
                } else {
                    if !self.upcalls.any_ready() {
                        return Err(Violation::YieldWaitDeadlock);
                    }
                    let _ = self.expectations.remove(0);
                    proof {
                        assert(self.expectations@ =~= old(self).expectations@.drop_first());
                    }
                    let delivered = self.upcalls.deliver_one();
                    Ok(delivered)
                }
            },
            _ => Err(Violation::WrongCall { expected: head, actual: CalledSyscall::YieldWait }),
        }
    }

    /// The command syscall. Consumes the head expectation, which must be a
    /// `Command` whose four matched fields equal the actual arguments
    /// exactly; on a match, returns the overridden outcome if one was
    /// declared, the default success otherwise.
    pub fn command(
        &mut self,
        driver_id: u32,
        command_id: u32,
        argument0: u32,
        argument1: u32,
    ) -> (r: Result<CommandOutcome, Violation>)
        ensures
            match r {
                Ok(out) => {
                    &&& old(self).exps().len() > 0
                    &&& is_matching_command(
                        old(self).exps()[0],
                        driver_id,
                        command_id,
                        argument0,
                        argument1,
                    )
                    &&& out == command_return(old(self).exps()[0])
                    &&& final(self).exps() == old(self).exps().drop_first()
                    &&& final(self).ups() == old(self).ups()
                },
                Err(v) => {
                    &&& final(self).exps() == old(self).exps()
                    &&& final(self).ups() == old(self).ups()
                    &&& if old(self).exps().len() == 0 {
                        v == (Violation::QueueExhausted {
                            actual: (CalledSyscall::Command {
                                driver_id,
                                command_id,
                                argument0,
                                argument1,
                            }),
                        })
                    } else {
                        &&& !is_matching_command(
                            old(self).exps()[0],
                            driver_id,
                            command_id,
                            argument0,
                            argument1,
                        )
                        &&& v == (Violation::WrongCall {
                            expected: old(self).exps()[0],
                            actual: (CalledSyscall::Command {
                                driver_id,
                                command_id,
                                argument0,
                                argument1,
                            }),
                        })
                    }
                },
            },
    {
        let actual = CalledSyscall::Command { driver_id, command_id, argument0, argument1 };
        if self.expectations.len() == 0 {
            return Err(Violation::QueueExhausted { actual });
        }
        let head = self.expectations[0];
        match head {
            ExpectedSyscall::Command {
                driver_id: d,
                command_id: c,
                argument0: a0,
                argument1: a1,
                override_return,
            } => {
                if d == driver_id && c == command_id && a0 == argument0 && a1 == argument1 {
                    let _ = self.expectations.remove(0);
                    proof {
                        assert(self.expectations@ =~= old(self).expectations@.drop_first());
                    }
                    let out = match override_return {
                        Some(o) => o,
                        None => CommandOutcome::Success { value: 0 },
                    };
                    Ok(out)
                } else {
                    Err(Violation::WrongCall { expected: head, actual })
                }
            },
            _ => Err(Violation::WrongCall { expected: head, actual }),
        }
    }

    /// The subscribe syscall. Consumes the head expectation, which must be a
    /// `Subscribe` naming exactly this driver and slot. On a successful
    /// outcome the kernel records a pending, not-yet-ready upcall for the
    /// driver and slot; an injected failure registers nothing.
    pub fn subscribe(&mut self, driver_id: u32, subscribe_slot: u32) -> (r: Result<
        SubscribeOutcome,
        Violation,
    >)
        ensures
            match r {
                Ok(out) => {
                    &&& old(self).exps().len() > 0
                    &&& is_matching_subscribe(old(self).exps()[0], driver_id, subscribe_slot)
                    &&& out == subscribe_return(old(self).exps()[0])
                    &&& final(self).exps() == old(self).exps().drop_first()
                    &&& if out is Success {
                        final(self).ups() == old(self).ups().push(
                            (PendingUpcall {
                                driver_id,
                                subscribe_slot,
                                ready: false,
                                argument0: 0,
                                argument1: 0,
                            }),
                        )
                    } else {
                        final(self).ups() == old(self).ups()
                    }
                },
                Err(v) => {
                    &&& final(self).exps() == old(self).exps()
                    &&& final(self).ups() == old(self).ups()
                    &&& if old(self).exps().len() == 0 {
                        v == (Violation::QueueExhausted {
                            actual: (CalledSyscall::Subscribe { driver_id, subscribe_slot }),
                        })
                    } else {
                        &&& !is_matching_subscribe(old(self).exps()[0], driver_id, subscribe_slot)
                        &&& v == (Violation::WrongCall {
                            expected: old(self).exps()[0],
                            actual: (CalledSyscall::Subscribe { driver_id, subscribe_slot }),
                        })
                    }
                },
            },
    {
        let actual = CalledSyscall::Subscribe { driver_id, subscribe_slot };
        if self.expectations.len() == 0 {
            return Err(Violation::QueueExhausted { actual });
        }
        let head = self.expectations[0];
        match head {
            ExpectedSyscall::Subscribe { driver_id: d, subscribe_slot: s, override_return } => {
                if d == driver_id && s == subscribe_slot {
                    let _ = self.expectations.remove(0);
                    proof {
                        assert(self.expectations@ =~= old(self).expectations@.drop_first());
                    }
                    let out = match override_return {
                        Some(o) => o,
                        None => SubscribeOutcome::Success,
                    };
                    if let SubscribeOutcome::Success = out {
                        self.upcalls.register(driver_id, subscribe_slot);
                    }
                    Ok(out)
                } else {
                    Err(Violation::WrongCall { expected: head, actual })
                }
            },
            _ => Err(Violation::WrongCall { expected: head, actual }),
        }
    }
}

} // verus!
