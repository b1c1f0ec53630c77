//! A deterministic, in-process simulator of an asynchronous, syscall-based
//! kernel, used to unit-test userspace driver code without real hardware.
//!
//! A test seeds a fake [`kernel::Kernel`] with the exact sequence of syscalls
//! the driver under test is expected to issue ([`expectation::ExpectedSyscall`]),
//! each optionally carrying an overridden return value, then exercises the
//! driver against it. The kernel consumes expectations strictly in FIFO order,
//! validates every call against the head expectation, and drives queued
//! upcalls on yields. Any deviation from the declared protocol is reported as
//! a structured [`expectation::Violation`] naming both the expected and the
//! actual call.

pub mod button;
pub mod expectation;
pub mod kernel;
pub mod laws;
pub mod outcome;
pub mod report;
pub mod upcall;
