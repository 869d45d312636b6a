//! The lowest layer of rate-limited logging: events that accumulate and
//! are flushed on request.

use vstd::prelude::*;

verus! {

/// Whether a flushed [`Loggable`] had something to say.
#[derive(Clone, Copy, Debug, Eq, PartialEq, Structural)]
pub enum Activity {
    /// There was a failure to report.
    Active,
    /// There is nothing to report, except perhaps a lack of failures.
    Dormant,
}

/// A group of events that can be logged singly or summarized over a
/// period of time.  Implemented by the users of the rate limiter, not
/// by this library.
pub trait Loggable {
    /// Log these events immediately, if there is anything to log.
    ///
    /// `summarizing_ms` is how long, in milliseconds, this value has
    /// been accumulating information.  Implementations return
    /// [`Activity::Active`] if they logged that something happened, and
    /// [`Activity::Dormant`] if they had nothing to log or only logged
    /// the absence of a problem; after being dormant for a while, the
    /// flush timer is reset.
    fn flush(&mut self, summarizing_ms: u64) -> Activity;
}

} // verus!
