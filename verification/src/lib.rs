//! Verified core of a Ctrl-C / termination-signal handling library.
//!
//! The library decides; the embedding program acts. Every operation that
//! touches the operating system (installing signal dispositions, reading the
//! wake-up pipe, spawning the watcher thread, waking an async task) is driven
//! by a small state machine or decision function defined here, whose
//! contract states exactly which action follows from which observation.
//!
//! - [`registry`]: at most one handler per process, at most one
//!   [`AsyncCtrlC`] at a time.
//! - [`watcher`]: the loop of the signal-handling thread.
//! - [`async_ctrlc`]: the steps of a poll of the Ctrl-C future and of the
//!   handler's completion of it.
//! - [`interleaving`]: any interleaving of those steps, and the laws that
//!   hold of all of them (no lost wake-up, completion is final).
//! - [`platform::unix`] and [`platform::windows`]: installing the OS handler
//!   and interpreting what a blocking wait returned.
pub mod async_ctrlc;
pub mod error;
pub mod interleaving;
pub mod platform;
pub mod registry;
pub mod watcher;

pub use async_ctrlc::AsyncCtrlC;
pub use error::{Error, SystemError};
pub use registry::{set_handler, try_set_handler, HandlerRegistry};
