//! Normalised terminal input: key, mouse and resize events in a small, stable
//! event model, and the bookkeeping of the terminal's raw input mode.
//!
//! The crate performs no input or output. A caller drives the terminal and
//! hands each primitive event to a [`session::TerminalInputSession`], which
//! answers with the normalised event and with the mode commands that the
//! caller has to carry out.

pub mod error;
pub mod events;
pub mod keys;
pub mod modifiers;
pub mod session;
