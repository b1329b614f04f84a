//! Error type shared by the codec, the protocol engine and the session
//! manager. Every error carries a human-readable message, as well as a kind
//! that contracts can speak about.

use vstd::prelude::*;

verus! {

/// What went wrong, by category.
///
/// Protocol-level kinds (`EmptyRead`, `UnknownHeader`) are not fatal to a
/// session; `Transport` errors are and trigger a reconnect.
#[derive(Clone, Copy, Debug, PartialEq, Eq, Structural)]
pub enum ErrorKind {
    /// A read returned zero bytes within its timeout.
    EmptyRead,
    /// The first received byte is not a known command code.
    UnknownHeader,
    /// A HID read or write failed; the session must be torn down.
    Transport,
    /// A system statistics source could not be sampled.
    Telemetry,
    /// The settings store could not be read or written.
    Config,
    /// The requested application is not currently producing audio.
    ApplicationNotFound,
}

/// An error of the device communication layer.
#[derive(Debug)]
pub struct HidError {
    pub message: String,
    pub kind: ErrorKind,
}

impl HidError {
    /// A transport-level error with the given message.
    pub fn new(message: String) -> (e: Self)
        ensures
            e.message == message,
            e.kind == ErrorKind::Transport,
    {
        Self { message, kind: ErrorKind::Transport }
    }

    /// An error of the given kind with the given message.
    pub fn with_kind(kind: ErrorKind, message: String) -> (e: Self)
        ensures
            e.message == message,
            e.kind == kind,
    {
        Self { message, kind }
    }
}

} // verus!
