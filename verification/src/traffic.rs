//! The incoming-traffic timestamp: how recently this process was
//! definitely able to receive traffic.
//!
//! The timestamp is an explicit value passed by reference, not hidden
//! global state; the clock readings come from the caller.  When
//! enabled, it is updated whenever a valid cell arrives and whenever a
//! channel handshake completes.

use vstd::prelude::*;

verus! {

/// The moment of the last incoming traffic, in the caller's clock
/// ticks, or `None` if traffic never arrived.
#[derive(Copy, Clone, Debug, PartialEq, Eq, Structural)]
pub struct TrafficTimestamp {
    /// Tick count at the last update, if any.
    pub latest: Option<u64>,
}

impl TrafficTimestamp {
    /// A timestamp that has never been updated.
    pub fn new() -> (r: Self)
        ensures
            r.latest is None,
    {
        TrafficTimestamp { latest: None }
    }
}

/// Record that incoming traffic arrived at tick `now`.
pub fn note_incoming_traffic(ts: &mut TrafficTimestamp, now: u64)
    ensures
        final(ts).latest == Some(now),
{
    ts.latest = Some(now);
}

/// The ticks elapsed at `now` since the last incoming traffic, clamped
/// at zero if the clock ran backwards, or `None` if traffic never
/// arrived.
pub fn time_since_last_incoming_traffic(ts: &TrafficTimestamp, now: u64) -> (r: Option<u64>)
    ensures
        match ts.latest {
            None => r is None,
            Some(t) => r == Some(if now >= t {
                (now - t) as u64
            } else {
                0u64
            }),
        },
{
    match ts.latest {
        None => None,
        Some(t) => {
            if now >= t {
                Some(now - t)
            } else {
                Some(0)
            }
        },
    }
}

} // verus!
