//! Platform-specific decisions: what to do with what the OS reported.
pub mod unix;
pub mod windows;
