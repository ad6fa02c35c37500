//! Error values reported by the library.
use vstd::prelude::*;

verus! {

/// A failure reported by the operating system, in plain values.
#[derive(Debug, Clone, Copy, PartialEq, Eq, Structural)]
pub enum SystemError {
    /// An operating-system error, given by its raw code (`errno` on Unix,
    /// the thread's last-error code on Windows).
    Os(i32),
    /// A signal already had a handler other than the default one and the
    /// caller asked not to overwrite it.
    HandlerExists,
    /// The wake-up pipe yielded something other than exactly one byte.
    UnexpectedEof,
    /// The semaphore wait returned a value that is neither success nor failure.
    UnexpectedWaitResult(u32),
    /// The lock that guards the stored waker was poisoned.
    WakerLockPoisoned,
}

/// The library's error type.
#[derive(Debug, Clone, Copy, PartialEq, Eq, Structural)]
pub enum Error {
    /// A Ctrl-C handler has already been registered in this process.
    MultipleHandlers,
    /// The operating system refused an operation.
    System(SystemError),
}

} // verus!
