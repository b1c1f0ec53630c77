use std::cell::Cell;
use std::rc::Rc;

use fake_kernel::button::Button;
use fake_kernel::button::ButtonCallback;
use fake_kernel::button::ButtonError;
use fake_kernel::button::ButtonState;
use fake_kernel::button::Buttons;
use fake_kernel::button::ButtonsError;
use fake_kernel::button::TockValue;
use fake_kernel::expectation::ExpectedSyscall;
use fake_kernel::kernel::Kernel;
use fake_kernel::outcome::CommandOutcome;
use fake_kernel::outcome::ErrorCode;
use fake_kernel::outcome::SubscribeOutcome;

struct Recorder {
    seen: Rc<Cell<Option<(usize, ButtonState)>>>,
}

impl ButtonCallback for Recorder {
    fn callback(&mut self, button_num: usize, state: ButtonState) {
        self.seen.set(Some((button_num, state)));
    }
}

fn expect_count(k: &mut Kernel, count: u32) {
    k.push_expected_syscall(ExpectedSyscall::Command {
        driver_id: 3,
        command_id: 0,
        argument0: 0,
        argument1: 0,
        override_return: Some(CommandOutcome::Success { value: count }),
    });
}

fn expect_subscribe(k: &mut Kernel, override_return: Option<SubscribeOutcome>) {
    k.push_expected_syscall(ExpectedSyscall::Subscribe {
        driver_id: 3,
        subscribe_slot: 0,
        override_return,
    });
}

fn make_enabled_button(k: &mut Kernel) -> (Buttons<()>, Button) {
    expect_count(k, 2);
    expect_subscribe(k, None);
    let buttons = Buttons::without_callback(k).unwrap();
    let mut it = buttons.iter();
    let mut handle = it.next().unwrap();
    k.push_expected_syscall(ExpectedSyscall::Command {
        driver_id: 3,
        command_id: 1,
        argument0: 0,
        argument1: 0,
        override_return: None,
    });
    let button = handle.enable(k).unwrap();
    (buttons, button)
}

#[test]
fn end_to_end_button_press() {
    let mut k = Kernel::new();
    expect_count(&mut k, 4);
    expect_subscribe(&mut k, None);
    let seen: Rc<Cell<Option<(usize, ButtonState)>>> = Rc::new(Cell::new(None));
    let recorder = Recorder { seen: Rc::clone(&seen) };
    let mut buttons = Buttons::with_callback(&mut k, recorder).unwrap();
    assert_eq!(buttons.count(), 4);

    // The driver enables button 0; the harness expects the command and lets
    // it succeed by default.
    let mut it = buttons.iter();
    let mut handle0 = it.next().unwrap();
    k.push_expected_syscall(ExpectedSyscall::Command {
        driver_id: 3,
        command_id: 1,
        argument0: 0,
        argument1: 0,
        override_return: None,
    });
    let _button = handle0.enable(&mut k).unwrap();

    // The simulated external event: button 0 pressed.
    assert!(k.mark_ready(3, 0, 0, 1));
    k.push_expected_syscall(ExpectedSyscall::YieldWait { skip_upcall: false });
    let delivered = k.yield_wait().unwrap().unwrap();
    buttons.handle_upcall(&delivered);

    assert_eq!(seen.get(), Some((0, ButtonState::Pressed)));
    assert_eq!(k.expectations_remaining(), 0);
}

#[test]
fn injected_enable_failure_surfaces_as_activation_failed() {
    let mut k = Kernel::new();
    expect_count(&mut k, 2);
    expect_subscribe(&mut k, None);
    let buttons = Buttons::without_callback(&mut k).unwrap();
    let mut it = buttons.iter();
    let mut handle0 = it.next().unwrap();
    k.push_expected_syscall(ExpectedSyscall::Command {
        driver_id: 3,
        command_id: 1,
        argument0: 0,
        argument1: 0,
        override_return: Some(CommandOutcome::Failure { error: ErrorCode::NoMem }),
    });
    let r = handle0.enable(&mut k);
    assert_eq!(r, Err(TockValue::Expected(ButtonError::ActivationFailed)));
    assert_eq!(k.expectations_remaining(), 0);
}

#[test]
fn one_button_device_is_not_supported() {
    let mut k = Kernel::new();
    expect_count(&mut k, 1);
    let r = Buttons::without_callback(&mut k);
    assert_eq!(r.unwrap_err(), TockValue::Expected(ButtonsError::NotSupported));
    assert_eq!(k.expectations_remaining(), 0);
}

#[test]
fn default_count_is_not_supported() {
    let mut k = Kernel::new();
    // No override: the count command answers with the default success, whose
    // payload of zero reports no buttons.
    k.push_expected_syscall(ExpectedSyscall::Command {
        driver_id: 3,
        command_id: 0,
        argument0: 0,
        argument1: 0,
        override_return: None,
    });
    let r = Buttons::without_callback(&mut k);
    assert_eq!(r.unwrap_err(), TockValue::Expected(ButtonsError::NotSupported));
}

#[test]
fn rejected_subscription_fails_initialization() {
    let mut k = Kernel::new();
    expect_count(&mut k, 2);
    expect_subscribe(&mut k, Some(SubscribeOutcome::Failure { error: ErrorCode::NoMem }));
    let r = Buttons::without_callback(&mut k);
    assert_eq!(r.unwrap_err(), TockValue::Expected(ButtonsError::SubscriptionFailed));
}

#[test]
fn unmapped_subscription_error_is_passed_through() {
    let mut k = Kernel::new();
    expect_count(&mut k, 2);
    expect_subscribe(&mut k, Some(SubscribeOutcome::Failure { error: ErrorCode::Busy }));
    let r = Buttons::without_callback(&mut k);
    assert_eq!(r.unwrap_err(), TockValue::Unexpected(ErrorCode::Busy));
}

#[test]
fn read_decodes_pressed_and_released() {
    let mut k = Kernel::new();
    let (_buttons, button) = make_enabled_button(&mut k);
    k.push_expected_syscall(ExpectedSyscall::Command {
        driver_id: 3,
        command_id: 3,
        argument0: 0,
        argument1: 0,
        override_return: Some(CommandOutcome::Success { value: 1 }),
    });
    assert_eq!(button.read(&mut k), ButtonState::Pressed);
    k.push_expected_syscall(ExpectedSyscall::Command {
        driver_id: 3,
        command_id: 3,
        argument0: 0,
        argument1: 0,
        override_return: Some(CommandOutcome::Success { value: 0 }),
    });
    assert_eq!(button.read(&mut k), ButtonState::Released);
}

#[test]
fn disable_succeeds_by_default() {
    let mut k = Kernel::new();
    expect_count(&mut k, 2);
    expect_subscribe(&mut k, None);
    let buttons = Buttons::without_callback(&mut k).unwrap();
    let mut it = buttons.iter();
    let mut handle0 = it.next().unwrap();
    k.push_expected_syscall(ExpectedSyscall::Command {
        driver_id: 3,
        command_id: 2,
        argument0: 0,
        argument1: 0,
        override_return: None,
    });
    assert_eq!(handle0.disable(&mut k), Ok(()));
}

#[test]
fn iter_hands_out_every_button_once() {
    let mut k = Kernel::new();
    expect_count(&mut k, 3);
    expect_subscribe(&mut k, None);
    let buttons = Buttons::without_callback(&mut k).unwrap();
    let mut it = buttons.iter();
    assert_eq!(it.next().unwrap().button_num(), 0);
    assert_eq!(it.next().unwrap().button_num(), 1);
    assert_eq!(it.next().unwrap().button_num(), 2);
    assert!(it.next().is_none());
}

#[test]
fn upcall_for_another_driver_is_ignored() {
    let mut k = Kernel::new();
    expect_count(&mut k, 2);
    expect_subscribe(&mut k, None);
    let seen: Rc<Cell<Option<(usize, ButtonState)>>> = Rc::new(Cell::new(None));
    let recorder = Recorder { seen: Rc::clone(&seen) };
    let mut buttons = Buttons::with_callback(&mut k, recorder).unwrap();
    k.register_pending_upcall(9, 4);
    assert!(k.mark_ready(9, 4, 7, 1));
    k.push_expected_syscall(ExpectedSyscall::YieldWait { skip_upcall: false });
    let delivered = k.yield_wait().unwrap().unwrap();
    buttons.handle_upcall(&delivered);
    assert_eq!(seen.get(), None);
}

#[test]
fn release_detaches_and_disables_every_button() {
    let mut k = Kernel::new();
    expect_count(&mut k, 2);
    expect_subscribe(&mut k, None);
    let buttons = Buttons::without_callback(&mut k).unwrap();
    expect_subscribe(&mut k, None);
    for i in 0..2 {
        k.push_expected_syscall(ExpectedSyscall::Command {
            driver_id: 3,
            command_id: 2,
            argument0: i,
            argument1: 0,
            override_return: None,
        });
    }
    buttons.release(&mut k);
    assert_eq!(k.expectations_remaining(), 0);
}

#[test]
fn released_state_word_decodes() {
    assert_eq!(ButtonState::from_word(0), ButtonState::Released);
    assert_eq!(ButtonState::from_word(1), ButtonState::Pressed);
}
