//! The button driver: a consumer of the syscall interface, written exactly as
//! it would be against a real kernel. Tests exercise it against the fake
//! kernel to validate its call/return/upcall protocol.

use vstd::prelude::*;

use crate::expectation::command_return;
use crate::expectation::is_matching_command;
use crate::expectation::is_matching_subscribe;
use crate::expectation::subscribe_return;
use crate::kernel::Kernel;
use crate::outcome::CommandOutcome;
use crate::outcome::ErrorCode;
use crate::outcome::SubscribeOutcome;
use crate::upcall::PendingUpcall;
use crate::upcall::UpcallEvent;

verus! {

/// The driver number of the button driver.
pub const DRIVER_NUMBER: u32 = 3;

/// Command identifier: how many buttons the device has.
pub const COMMAND_COUNT: u32 = 0;

/// Command identifier: enable the press interrupt of one button.
pub const COMMAND_ENABLE_INTERRUPT: u32 = 1;

/// Command identifier: disable the press interrupt of one button.
pub const COMMAND_DISABLE_INTERRUPT: u32 = 2;

/// Command identifier: read the current state of one button.
pub const COMMAND_READ: u32 = 3;

/// Subscribe slot of the button-press callback.
pub const SUBSCRIBE_CALLBACK: u32 = 0;

/// A driver-level result: either the error the driver itself anticipates, or
/// a kernel error code it has no mapping for.
#[derive(Clone, Copy, Debug, PartialEq, Eq)]
pub enum TockValue<E> {
    Expected(E),
    Unexpected(ErrorCode),
}

/// The result type of the driver's fallible entry points.
pub type TockResult<T, E> = Result<T, TockValue<E>>;

/// Errors of driver initialization.
#[derive(Clone, Copy, Debug, PartialEq, Eq)]
pub enum ButtonsError {
    /// The device reports too few buttons to drive.
    NotSupported,
    /// The kernel rejected the button-press subscription.
    SubscriptionFailed,
}

/// Errors of enabling or disabling one button.
#[derive(Clone, Copy, Debug, PartialEq, Eq)]
pub enum ButtonError {
    ActivationFailed,
}

/// The observable state of a button.
#[derive(Clone, Copy, Debug, PartialEq, Eq, Structural)]
pub enum ButtonState {
    Pressed,
    Released,
}

impl ButtonState {
    /// Decodes the state word an upcall or a read carries: zero is released,
    /// one is pressed.
    pub fn from_word(state: u32) -> (r: ButtonState)
        requires
            state <= 1,
        ensures
            r == (if state == 1 {
                ButtonState::Pressed
            } else {
                ButtonState::Released
            }),
    {
        if state == 1 {
            ButtonState::Pressed
        } else {
            ButtonState::Released
        }
    }
}

/// What the driver's user wants to run when a button-press upcall arrives.
pub trait ButtonCallback {
    fn callback(&mut self, button_num: usize, state: ButtonState);
}

impl ButtonCallback for () {
    fn callback(&mut self, _button_num: usize, _state: ButtonState) {
    }
}

/// Whether the count command's outcome reports a usable device: a success
/// whose value, the number of buttons, is more than one.
pub open spec fn count_supported(out: CommandOutcome) -> bool {
    out matches CommandOutcome::Success { value } && value > 1
}

/// The payload of a successful command outcome; zero on failure.
pub open spec fn success_value(out: CommandOutcome) -> u32 {
    match out {
        CommandOutcome::Success { value } => value,
        CommandOutcome::Failure { .. } => 0,
    }
}

/// The initialized button driver: holds the button count the device reported
/// and the callback the press subscription routes to.
#[derive(Debug)]
pub struct Buttons<CB> {
    count: u32,
    callback: CB,
}

impl Buttons<()> {
    /// Initializes the driver with a callback that does nothing.
    pub fn without_callback(kernel: &mut Kernel) -> (r: TockResult<Buttons<()>, ButtonsError>)
        requires
            old(kernel).exps().len() >= 1,
            is_matching_command(old(kernel).exps()[0], DRIVER_NUMBER, COMMAND_COUNT, 0, 0),
            count_supported(command_return(old(kernel).exps()[0])) ==> old(kernel).exps().len()
                >= 2 && is_matching_subscribe(
                old(kernel).exps()[1],
                DRIVER_NUMBER,
                SUBSCRIBE_CALLBACK,
            ),
        ensures
            buttons_setup_post(*old(kernel), *final(kernel), r),
    {
        Buttons::with_callback(kernel, ())
    }
}

/// The full contract of driver initialization, over the kernel before and
/// after the call and the driver's result. The driver first issues the count
/// command; a failure or a count of at most one button is not supported.
/// Otherwise it subscribes to the press upcall: a successful subscription
/// yields the driver, an injected out-of-memory failure surfaces as
/// `SubscriptionFailed`, and any other failure is passed through unexpected.
pub open spec fn buttons_setup_post<CB>(
    pre: Kernel,
    post: Kernel,
    r: TockResult<Buttons<CB>, ButtonsError>,
) -> bool {
    let c = command_return(pre.exps()[0]);
    if !count_supported(c) {
        &&& r matches Err(TockValue::Expected(ButtonsError::NotSupported))
        &&& post.exps() == pre.exps().drop_first()
        &&& post.ups() == pre.ups()
    } else {
        let s = subscribe_return(pre.exps()[1]);
        &&& post.exps() == pre.exps().skip(2)
        &&& match s {
            SubscribeOutcome::Success => {
                &&& r matches Ok(b) && b.button_count() == success_value(c)
                &&& post.ups() == pre.ups().push(
                    (PendingUpcall {
                        driver_id: DRIVER_NUMBER,
                        subscribe_slot: SUBSCRIBE_CALLBACK,
                        ready: false,
                        argument0: 0,
                        argument1: 0,
                    }),
                )
            },
            SubscribeOutcome::Failure { error } => {
                &&& post.ups() == pre.ups()
                &&& if error is NoMem {
                    r matches Err(TockValue::Expected(ButtonsError::SubscriptionFailed))
                } else {
                    r matches Err(TockValue::Unexpected(e)) && e == error
                }
            },
        }
    }
}

impl<CB> Buttons<CB> {
    /// The number of buttons the device reported.
    pub closed spec fn button_count(&self) -> u32 {
        self.count
    }

    /// The callback the press subscription routes to.
    pub closed spec fn spec_callback(&self) -> CB {
        self.callback
    }
}

impl<CB: ButtonCallback> Buttons<CB> {
    /// Initializes the driver: asks the device how many buttons it has and
    /// subscribes the given callback to the button-press upcall.
    pub fn with_callback(kernel: &mut Kernel, callback: CB) -> (r: TockResult<
        Buttons<CB>,
        ButtonsError,
    >)
        requires
            old(kernel).exps().len() >= 1,
            is_matching_command(old(kernel).exps()[0], DRIVER_NUMBER, COMMAND_COUNT, 0, 0),
            count_supported(command_return(old(kernel).exps()[0])) ==> old(kernel).exps().len()
                >= 2 && is_matching_subscribe(
                old(kernel).exps()[1],
                DRIVER_NUMBER,
                SUBSCRIBE_CALLBACK,
            ),
        ensures
            buttons_setup_post(*old(kernel), *final(kernel), r),
            r matches Ok(b) ==> b.spec_callback() == callback,
    {
        let r1 = kernel.command(DRIVER_NUMBER, COMMAND_COUNT, 0, 0);
        let out = match r1 {
            Ok(o) => o,
            Err(_) => unreached(),
        };
        let count: u32 = match out {
            CommandOutcome::Success { value } => value,
            CommandOutcome::Failure { .. } => 0,
        };
        if count <= 1 {
            return Err(TockValue::Expected(ButtonsError::NotSupported));
        }
        let r2 = kernel.subscribe(DRIVER_NUMBER, SUBSCRIBE_CALLBACK);
        let sout = match r2 {
            Ok(o) => o,
            Err(_) => unreached(),
        };
        proof {
            assert(kernel.exps() =~= old(kernel).exps().skip(2));
        }
        match sout {
            SubscribeOutcome::Success => Ok(Buttons { count, callback }),
            SubscribeOutcome::Failure { error } => match error {
                ErrorCode::NoMem => Err(TockValue::Expected(ButtonsError::SubscriptionFailed)),
                _ => Err(TockValue::Unexpected(error)),
            },
        }
    }

    /// The number of buttons the device reported.
    pub fn count(&self) -> (n: u32)
        ensures
            n == self.button_count(),
    {
        self.count
    }

    /// Handles to the buttons, in order of their numbers.
    pub fn iter(&self) -> (it: ButtonIter)
        ensures
            it.spec_curr() == 0,
            it.spec_count() == self.button_count(),
    {
        ButtonIter { curr_button: 0, button_count: self.count }
    }

    /// Routes one delivered upcall to the registered callback, as the real
    /// kernel would invoke the subscribed callback target. Events addressed
    /// to other drivers or slots are not for this driver and are ignored.
    pub fn handle_upcall(&mut self, event: &UpcallEvent)
        requires
            event.driver_id == DRIVER_NUMBER && event.subscribe_slot == SUBSCRIBE_CALLBACK
                ==> event.argument1 <= 1,
        ensures
            final(self).button_count() == old(self).button_count(),
    {
        if event.driver_id == DRIVER_NUMBER && event.subscribe_slot == SUBSCRIBE_CALLBACK {
            let state = ButtonState::from_word(event.argument1);
            self.callback.callback(event.argument0 as usize, state);
        }
    }

    /// Shuts the driver down, as dropping it does against a real kernel: one
    /// subscribe syscall detaches the press callback, then the interrupt of
    /// every button is disabled in order of the button numbers. The return
    /// values of all these syscalls are deliberately ignored.
    pub fn release(self, kernel: &mut Kernel)
        requires
            old(kernel).exps().len() >= 1 + self.button_count(),
            is_matching_subscribe(old(kernel).exps()[0], DRIVER_NUMBER, SUBSCRIBE_CALLBACK),
            forall|i: int| 0 <= i < self.button_count() ==> is_matching_command(
                #[trigger] old(kernel).exps()[1 + i],
                DRIVER_NUMBER,
                COMMAND_DISABLE_INTERRUPT,
                i as u32,
                0,
            ),
        ensures
            final(kernel).exps() == old(kernel).exps().skip(1 + self.button_count()),
            if subscribe_return(old(kernel).exps()[0]) is Success {
                final(kernel).ups() == old(kernel).ups().push(
                    (PendingUpcall {
                        driver_id: DRIVER_NUMBER,
                        subscribe_slot: SUBSCRIBE_CALLBACK,
                        ready: false,
                        argument0: 0,
                        argument1: 0,
                    }),
                )
            } else {
                final(kernel).ups() == old(kernel).ups()
            },
    {
        let count = self.count;
        let r1 = kernel.subscribe(DRIVER_NUMBER, SUBSCRIBE_CALLBACK);
        match r1 {
            Ok(_) => (),
            Err(_) => unreached(),
        }
        let ghost ups_after = kernel.ups();
        let mut i: u32 = 0;
        while i < count
            invariant
                0 <= i <= count,
                count == self.button_count(),
                old(kernel).exps().len() >= 1 + count,
                forall|j: int| 0 <= j < count ==> is_matching_command(
                    #[trigger] old(kernel).exps()[1 + j],
                    DRIVER_NUMBER,
                    COMMAND_DISABLE_INTERRUPT,
                    j as u32,
                    0,
                ),
                kernel.exps() == old(kernel).exps().skip(1 + i),
                kernel.ups() == ups_after,
            decreases count - i,
        {
            let r2 = kernel.command(DRIVER_NUMBER, COMMAND_DISABLE_INTERRUPT, i, 0);
            match r2 {
                Ok(_) => (),
                Err(_) => unreached(),
            }
            proof {
                assert(kernel.exps() =~= old(kernel).exps().skip(1 + (i + 1)));
            }
            i = i + 1;
        }
    }
}

/// Walks the buttons of the device front to back, handing out one handle per
/// button number.
#[derive(Clone, Copy, Debug, PartialEq, Eq, Structural)]
pub struct ButtonIter {
    curr_button: u32,
    button_count: u32,
}

impl ButtonIter {
    /// The next button number the walk will hand out.
    pub closed spec fn spec_curr(&self) -> u32 {
        self.curr_button
    }

    /// The number of buttons the walk covers.
    pub closed spec fn spec_count(&self) -> u32 {
        self.button_count
    }

    /// The handle of the next button, or `None` when the walk is done.
    pub fn next(&mut self) -> (r: Option<ButtonHandle>)
        ensures
            final(self).spec_count() == old(self).spec_count(),
            if old(self).spec_curr() < old(self).spec_count() {
                &&& r matches Some(h) && h.spec_button_num() == old(self).spec_curr()
                &&& final(self).spec_curr() == old(self).spec_curr() + 1
            } else {
                r is None && final(self).spec_curr() == old(self).spec_curr()
            },
    {
        if self.curr_button < self.button_count {
            let item = ButtonHandle { button_num: self.curr_button };
            self.curr_button = self.curr_button + 1;
            Some(item)
        } else {
            None
        }
    }
}

/// One button of the device, identified by its number.
#[derive(Clone, Copy, Debug, PartialEq, Eq, Structural)]
pub struct ButtonHandle {
    button_num: u32,
}

impl ButtonHandle {
    /// The number of this button.
    pub closed spec fn spec_button_num(&self) -> u32 {
        self.button_num
    }

    /// The number of this button.
    pub fn button_num(&self) -> (n: u32)
        ensures
            n == self.spec_button_num(),
    {
        self.button_num
    }

    /// Enables the press interrupt of this button. A successful command
    /// yields an enabled button; an injected out-of-memory failure surfaces
    /// as `ActivationFailed`, any other failure is passed through.
    pub fn enable(&mut self, kernel: &mut Kernel) -> (r: TockResult<Button, ButtonError>)
        requires
            old(kernel).exps().len() > 0,
            is_matching_command(
                old(kernel).exps()[0],
                DRIVER_NUMBER,
                COMMAND_ENABLE_INTERRUPT,
                old(self).spec_button_num(),
                0,
            ),
        ensures
            *final(self) == *old(self),
            final(kernel).exps() == old(kernel).exps().drop_first(),
            final(kernel).ups() == old(kernel).ups(),
            ({
                let out = command_return(old(kernel).exps()[0]);
                match out {
                    CommandOutcome::Success { .. } => r matches Ok(b) && b.spec_button_num()
                        == old(self).spec_button_num(),
                    CommandOutcome::Failure { error } => if error is NoMem {
                        r matches Err(TockValue::Expected(ButtonError::ActivationFailed))
                    } else {
                        r matches Err(TockValue::Unexpected(e)) && e == error
                    },
                }
            }),
    {
        let r1 = kernel.command(DRIVER_NUMBER, COMMAND_ENABLE_INTERRUPT, self.button_num, 0);
        let out = match r1 {
            Ok(o) => o,
            Err(_) => unreached(),
        };
        match out {
            CommandOutcome::Success { .. } => Ok(Button { button_num: self.button_num }),
            CommandOutcome::Failure { error } => match error {
                ErrorCode::NoMem => Err(TockValue::Expected(ButtonError::ActivationFailed)),
                _ => Err(TockValue::Unexpected(error)),
            },
        }
    }

    /// Disables the press interrupt of this button.
    pub fn disable(&mut self, kernel: &mut Kernel) -> (r: TockResult<(), ButtonError>)
        requires
            old(kernel).exps().len() > 0,
            is_matching_command(
                old(kernel).exps()[0],
                DRIVER_NUMBER,
                COMMAND_DISABLE_INTERRUPT,
                old(self).spec_button_num(),
                0,
            ),
        ensures
            *final(self) == *old(self),
            final(kernel).exps() == old(kernel).exps().drop_first(),
            final(kernel).ups() == old(kernel).ups(),
            ({
                let out = command_return(old(kernel).exps()[0]);
                match out {
                    CommandOutcome::Success { .. } => r is Ok,
                    CommandOutcome::Failure { error } => if error is NoMem {
                        r matches Err(TockValue::Expected(ButtonError::ActivationFailed))
                    } else {
                        r matches Err(TockValue::Unexpected(e)) && e == error
                    },
                }
            }),
    {
        let r1 = kernel.command(DRIVER_NUMBER, COMMAND_DISABLE_INTERRUPT, self.button_num, 0);
        let out = match r1 {
            Ok(o) => o,
            Err(_) => unreached(),
        };
        match out {
            CommandOutcome::Success { .. } => Ok(()),
            CommandOutcome::Failure { error } => match error {
                ErrorCode::NoMem => Err(TockValue::Expected(ButtonError::ActivationFailed)),
                _ => Err(TockValue::Unexpected(error)),
            },
        }
    }
}

/// A button whose press interrupt has been enabled.
#[derive(Clone, Copy, Debug, PartialEq, Eq, Structural)]
pub struct Button {
    button_num: u32,
}

impl Button {
    /// The number of this button.
    pub closed spec fn spec_button_num(&self) -> u32 {
        self.button_num
    }

    /// Reads the current state of this button. The device answers the read
    /// command with zero or one; the driver decodes it.
    pub fn read(&self, kernel: &mut Kernel) -> (s: ButtonState)
        requires
            old(kernel).exps().len() > 0,
            is_matching_command(
                old(kernel).exps()[0],
                DRIVER_NUMBER,
                COMMAND_READ,
                self.spec_button_num(),
                0,
            ),
            command_return(old(kernel).exps()[0]) matches CommandOutcome::Success { value }
                && value <= 1,
        ensures
            final(kernel).exps() == old(kernel).exps().drop_first(),
            final(kernel).ups() == old(kernel).ups(),
            s == (if success_value(command_return(old(kernel).exps()[0])) == 1 {
                ButtonState::Pressed
            } else {
                ButtonState::Released
            }),
    {
        let r1 = kernel.command(DRIVER_NUMBER, COMMAND_READ, self.button_num, 0);
        let out = match r1 {
            Ok(o) => o,
            Err(_) => unreached(),
        };
        match out {
            CommandOutcome::Success { value } => ButtonState::from_word(value),
            CommandOutcome::Failure { .. } => unreached(),
        }
    }
}

} // verus!
