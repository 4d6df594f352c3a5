//! Listening to the server's own input devices.

pub mod event;
pub mod windows;

use vstd::prelude::*;

verus! {

/// Instruction from the server to its input listener.
#[derive(Clone, Copy, PartialEq, Eq, Debug, Structural)]
pub enum Signal {
    /// Whether the listener captures the user's inputs (rather than only
    /// observing them).
    SetShouldCapture(bool),
}

} // verus!
