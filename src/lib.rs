//! Interrupt-fed console transport: fixed-capacity receive rings, the
//! terminal line discipline, and the standard stream endpoints built on them.
//!
//! Device access, locking and scheduling stay with the caller: output comes
//! back as the device bytes to transmit, input arrives through the rings, and
//! a read that has to wait returns `None` so that the caller can yield and
//! try again.
pub mod console;
pub mod fd;
pub mod flags;
pub mod ring;
pub mod stdio;
