//! Liveness probe messages.

use vstd::prelude::*;

verus! {

/// Liveness probe.
#[derive(Clone, Copy, PartialEq, Eq, Debug, Structural)]
pub struct Ping {
    pub counter: u16,
}

/// Reply to a [`Ping`].
#[derive(Clone, Copy, PartialEq, Eq, Debug, Structural)]
pub struct Pong {
    pub counter: u16,
}

/// Interval between two liveness probes, in milliseconds.
pub const PING_INTERVAL_MILLIS: u64 = 1000;

} // verus!
