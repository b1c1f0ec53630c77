use fake_kernel::expectation::CalledSyscall;
use fake_kernel::expectation::ExpectedSyscall;
use fake_kernel::expectation::Violation;
use fake_kernel::kernel::Kernel;
use fake_kernel::outcome::CommandOutcome;
use fake_kernel::outcome::ErrorCode;
use fake_kernel::outcome::SubscribeOutcome;
use fake_kernel::outcome::YieldOutcome;

#[test]
fn fifo_consumed_in_order() {
    let mut k = Kernel::new();
    k.push_expected_syscall(ExpectedSyscall::Command {
        driver_id: 1,
        command_id: 2,
        argument0: 3,
        argument1: 4,
        override_return: None,
    });
    k.push_expected_syscall(ExpectedSyscall::YieldWait { skip_upcall: true });
    assert_eq!(k.expectations_remaining(), 2);
    let r1 = k.command(1, 2, 3, 4);
    assert_eq!(r1, Ok(CommandOutcome::Success { value: 0 }));
    assert_eq!(k.expectations_remaining(), 1);
    let r2 = k.yield_wait();
    assert_eq!(r2, Ok(None));
    assert_eq!(k.expectations_remaining(), 0);
}

#[test]
fn fewer_calls_leave_queue_non_empty() {
    let mut k = Kernel::new();
    k.push_expected_syscall(ExpectedSyscall::YieldNoWait { override_return: None });
    assert_eq!(k.expectations_remaining(), 1);
}

#[test]
fn call_past_the_queue_fails() {
    let mut k = Kernel::new();
    let r = k.command(3, 1, 0, 0);
    assert_eq!(
        r,
        Err(Violation::QueueExhausted {
            actual: CalledSyscall::Command {
                driver_id: 3,
                command_id: 1,
                argument0: 0,
                argument1: 0,
            },
        })
    );
}

#[test]
fn command_argument_mismatch_names_both_tuples() {
    let mut k = Kernel::new();
    let expected = ExpectedSyscall::Command {
        driver_id: 3,
        command_id: 1,
        argument0: 2,
        argument1: 0,
        override_return: None,
    };
    k.push_expected_syscall(expected);
    let r = k.command(3, 1, 3, 0);
    assert_eq!(
        r,
        Err(Violation::WrongCall {
            expected,
            actual: CalledSyscall::Command {
                driver_id: 3,
                command_id: 1,
                argument0: 3,
                argument1: 0,
            },
        })
    );
    // A mismatch consumes nothing; the exact call still matches.
    assert_eq!(k.expectations_remaining(), 1);
    let r2 = k.command(3, 1, 2, 0);
    assert_eq!(r2, Ok(CommandOutcome::Success { value: 0 }));
}

#[test]
fn wrong_call_kind_is_reported() {
    let mut k = Kernel::new();
    let expected = ExpectedSyscall::YieldWait { skip_upcall: false };
    k.push_expected_syscall(expected);
    let r = k.command(3, 1, 0, 0);
    assert_eq!(
        r,
        Err(Violation::WrongCall {
            expected,
            actual: CalledSyscall::Command {
                driver_id: 3,
                command_id: 1,
                argument0: 0,
                argument1: 0,
            },
        })
    );
}

#[test]
fn command_override_is_returned() {
    let mut k = Kernel::new();
    k.push_expected_syscall(ExpectedSyscall::Command {
        driver_id: 7,
        command_id: 0,
        argument0: 0,
        argument1: 0,
        override_return: Some(CommandOutcome::Failure { error: ErrorCode::Busy }),
    });
    let r = k.command(7, 0, 0, 0);
    assert_eq!(r, Ok(CommandOutcome::Failure { error: ErrorCode::Busy }));
}

#[test]
fn yield_no_wait_override_wins_over_delivery() {
    let mut k = Kernel::new();
    k.register_pending_upcall(3, 0);
    assert!(k.mark_ready(3, 0, 0, 1));
    k.push_expected_syscall(ExpectedSyscall::YieldNoWait {
        override_return: Some(YieldOutcome::NoUpcall),
    });
    let (outcome, delivered) = k.yield_no_wait().unwrap();
    // The upcall really was delivered, yet the override is returned verbatim.
    assert!(delivered.is_some());
    assert_eq!(outcome, YieldOutcome::NoUpcall);
    assert_eq!(k.pending_upcall_count(), 0);
}

#[test]
fn yield_no_wait_reflects_delivery_without_override() {
    let mut k = Kernel::new();
    k.register_pending_upcall(3, 0);
    assert!(k.mark_ready(3, 0, 5, 1));
    k.push_expected_syscall(ExpectedSyscall::YieldNoWait { override_return: None });
    let (outcome, delivered) = k.yield_no_wait().unwrap();
    assert_eq!(outcome, YieldOutcome::Upcall);
    let event = delivered.unwrap();
    assert_eq!(event.driver_id, 3);
    assert_eq!(event.subscribe_slot, 0);
    assert_eq!(event.argument0, 5);
    assert_eq!(event.argument1, 1);

    k.push_expected_syscall(ExpectedSyscall::YieldNoWait { override_return: None });
    let (outcome2, delivered2) = k.yield_no_wait().unwrap();
    assert_eq!(outcome2, YieldOutcome::NoUpcall);
    assert!(delivered2.is_none());
}

#[test]
fn yield_wait_delivers_exactly_one_then_deadlocks() {
    let mut k = Kernel::new();
    k.register_pending_upcall(3, 0);
    assert!(k.mark_ready(3, 0, 0, 1));
    k.push_expected_syscall(ExpectedSyscall::YieldWait { skip_upcall: false });
    let delivered = k.yield_wait().unwrap().unwrap();
    assert_eq!(delivered.argument0, 0);
    assert_eq!(delivered.argument1, 1);
    assert_eq!(k.pending_upcall_count(), 0);

    k.push_expected_syscall(ExpectedSyscall::YieldWait { skip_upcall: false });
    let r = k.yield_wait();
    assert_eq!(r, Err(Violation::YieldWaitDeadlock));
}

#[test]
fn skip_flag_leaves_ready_upcall_untouched() {
    let mut k = Kernel::new();
    k.register_pending_upcall(3, 0);
    assert!(k.mark_ready(3, 0, 2, 1));
    k.push_expected_syscall(ExpectedSyscall::YieldWait { skip_upcall: true });
    let r = k.yield_wait();
    assert_eq!(r, Ok(None));
    assert!(k.any_upcall_ready());
    assert_eq!(k.pending_upcall_count(), 1);

    // The upcall stayed ready for a later, delivering yield.
    k.push_expected_syscall(ExpectedSyscall::YieldWait { skip_upcall: false });
    let delivered = k.yield_wait().unwrap().unwrap();
    assert_eq!(delivered.argument0, 2);
    assert_eq!(delivered.argument1, 1);
    assert_eq!(k.pending_upcall_count(), 0);
}

#[test]
fn delivery_is_oldest_ready_first() {
    let mut k = Kernel::new();
    k.register_pending_upcall(3, 0);
    k.register_pending_upcall(3, 0);
    assert!(k.mark_ready(3, 0, 10, 1));
    assert!(k.mark_ready(3, 0, 20, 0));
    k.push_expected_syscall(ExpectedSyscall::YieldNoWait { override_return: None });
    k.push_expected_syscall(ExpectedSyscall::YieldNoWait { override_return: None });
    let (_, first) = k.yield_no_wait().unwrap();
    assert_eq!(first.unwrap().argument0, 10);
    let (_, second) = k.yield_no_wait().unwrap();
    assert_eq!(second.unwrap().argument0, 20);
}

#[test]
fn mark_ready_without_matching_entry_reports_none() {
    let mut k = Kernel::new();
    assert!(!k.mark_ready(3, 0, 0, 1));
    k.register_pending_upcall(4, 2);
    assert!(!k.mark_ready(3, 0, 0, 1));
    assert!(!k.any_upcall_ready());
}

#[test]
fn subscribe_registers_a_pending_upcall() {
    let mut k = Kernel::new();
    k.push_expected_syscall(ExpectedSyscall::Subscribe {
        driver_id: 3,
        subscribe_slot: 0,
        override_return: None,
    });
    let r = k.subscribe(3, 0);
    assert_eq!(r, Ok(SubscribeOutcome::Success));
    assert_eq!(k.pending_upcall_count(), 1);
    assert!(!k.any_upcall_ready());
}

#[test]
fn failed_subscribe_registers_nothing() {
    let mut k = Kernel::new();
    k.push_expected_syscall(ExpectedSyscall::Subscribe {
        driver_id: 3,
        subscribe_slot: 0,
        override_return: Some(SubscribeOutcome::Failure { error: ErrorCode::NoMem }),
    });
    let r = k.subscribe(3, 0);
    assert_eq!(r, Ok(SubscribeOutcome::Failure { error: ErrorCode::NoMem }));
    assert_eq!(k.pending_upcall_count(), 0);
}

#[test]
fn mismatch_message_names_both_tuples() {
    let mut k = Kernel::new();
    k.push_expected_syscall(ExpectedSyscall::Command {
        driver_id: 3,
        command_id: 1,
        argument0: 2,
        argument1: 0,
        override_return: None,
    });
    let v = k.command(3, 1, 3, 0).unwrap_err();
    assert_eq!(
        v.describe(),
        "Expected system call command(driver_id=3, command_id=1, argument0=2, argument1=0), \
         but command(driver_id=3, command_id=1, argument0=3, argument1=0) was called instead."
    );
}

#[test]
fn exhausted_queue_message_names_the_call() {
    let mut k = Kernel::new();
    let v = k.command(1048576, 0, 4294967295, 10).unwrap_err();
    assert_eq!(
        v.describe(),
        "No system call was expected, but command(driver_id=1048576, command_id=0, \
         argument0=4294967295, argument1=10) was called."
    );
}

#[test]
fn deadlock_and_kind_mismatch_messages() {
    let mut k = Kernel::new();
    k.push_expected_syscall(ExpectedSyscall::YieldWait { skip_upcall: false });
    let v = k.yield_wait().unwrap_err();
    assert_eq!(
        v.describe(),
        "yield-wait was called with no ready upcall and no skip flag; \
         a real kernel would deadlock here."
    );
    let v2 = k.yield_no_wait().unwrap_err();
    assert_eq!(
        v2.describe(),
        "Expected system call yield-wait(skip_upcall=false), \
         but yield-no-wait was called instead."
    );
    let v3 = k.subscribe(3, 0).unwrap_err();
    assert_eq!(
        v3.describe(),
        "Expected system call yield-wait(skip_upcall=false), \
         but subscribe(driver_id=3, subscribe_slot=0) was called instead."
    );
}

#[test]
fn subscribe_slot_mismatch_is_reported() {
    let mut k = Kernel::new();
    let expected = ExpectedSyscall::Subscribe {
        driver_id: 3,
        subscribe_slot: 0,
        override_return: None,
    };
    k.push_expected_syscall(expected);
    let r = k.subscribe(3, 1);
    assert_eq!(
        r,
        Err(Violation::WrongCall {
            expected,
            actual: CalledSyscall::Subscribe { driver_id: 3, subscribe_slot: 1 },
        })
    );
}
