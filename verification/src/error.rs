//! The ways in which an operation of this crate fails.

use vstd::prelude::*;

verus! {

/// Why an operation failed. Each failure goes to the caller of the operation
/// that met it; nothing is tried again on its own.
#[derive(Clone, Copy, Debug, PartialEq, Eq, Structural)]
pub enum InputError {
    /// The driver could not switch raw mode or mouse capture on or off.
    ModeToggleFailure,
    /// A key event whose code has no counterpart. The caller may pass over it
    /// and read again.
    UnrecognizedInput,
    /// Control and `c`: the user asks to stop. The session has given up its
    /// guard.
    Interrupt,
    /// A read on a session that holds no guard any more.
    SessionMisuse,
}

} // verus!
