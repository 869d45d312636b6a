//! The decision core of byte-rate limiting: a token bucket that grants
//! or defers permission to consume bytes.
//!
//! One limiter guards one direction of traffic.  Readers and writers
//! ask it for a number of bytes; the answer is either a grant (possibly
//! smaller than asked: never less than one cell's worth unless the
//! request itself was smaller) or the instruction to wait until the
//! bucket refills.  Waiting, waking and the clock are the caller's; the
//! arithmetic and the grant rules live here, verified.

use vstd::prelude::*;

verus! {

/// Approximate number of bytes needed to write a cell to the network,
/// including transport overhead.  An overestimate; it need not be
/// precise.
pub const BYTES_PER_CELL: u64 = 576;

/// Nanoseconds in one second.
pub const NANOS_PER_SEC: u64 = 1000000000;

/// A rate limit on one direction of traffic.
#[derive(Copy, Clone, Debug, PartialEq, Eq, Structural)]
pub struct TrafficRateLimit {
    /// Sustained limit, in bytes per second.
    pub max_bytes_per_sec: u64,
    /// Burst allowance, in bytes.
    pub max_bytes_burst: u64,
}

/// Rate limits for both directions of traffic.
#[derive(Copy, Clone, Debug, PartialEq, Eq, Structural)]
pub struct LimiterConfig {
    /// Limit on bytes sent.
    pub upload_limit: TrafficRateLimit,
    /// Limit on bytes received.
    pub download_limit: TrafficRateLimit,
}

/// The answer to a request for bytes.
#[derive(Copy, Clone, Debug, PartialEq, Eq, Structural)]
pub enum TakeOutcome {
    /// Permission to consume this many bytes.  Any part that goes
    /// unused should be returned with [`BwLimiter::put_back`].
    Granted(u64),
    /// Not enough capacity: wait for a refill before asking again.
    Wait,
}

/// The token bucket guarding one direction of traffic.
#[derive(Copy, Clone, Debug, PartialEq, Eq, Structural)]
pub struct BwLimiter {
    /// How much time must pass before one cell's worth of bytes can be
    /// added to the bucket, in nanoseconds.
    pub dur_per_cell: u64,
    /// Burst allowance: the bucket's capacity, in bytes.
    pub bytes_burst: u64,
    /// The bucket's current level, in bytes.
    pub cur_level: u64,
}

impl BwLimiter {
    /// A fresh, empty bucket for the given limit.  A zero rate would
    /// make the refill interval undefined, so it is excluded.
    pub fn new(lim: TrafficRateLimit) -> (r: Self)
        requires
            lim.max_bytes_per_sec > 0,
        ensures
            r.dur_per_cell == (NANOS_PER_SEC * BYTES_PER_CELL) as int
                / lim.max_bytes_per_sec as int,
            r.bytes_burst == lim.max_bytes_burst,
            r.cur_level == 0,
    {
        let dur_per_cell = (NANOS_PER_SEC * BYTES_PER_CELL) / lim.max_bytes_per_sec;
        BwLimiter { dur_per_cell, bytes_burst: lim.max_bytes_burst, cur_level: 0 }
    }

    /// Return `n` unused bytes to the bucket, capped at the burst
    /// allowance.
    ///
    /// This can break the limit unless permission to consume these
    /// bytes was granted earlier.
    pub fn put_back(&mut self, n: u64)
        ensures
            final(self).dur_per_cell == old(self).dur_per_cell,
            final(self).bytes_burst == old(self).bytes_burst,
            final(self).cur_level == if old(self).cur_level + n >= old(self).bytes_burst {
                old(self).bytes_burst
            } else {
                (old(self).cur_level + n) as u64
            },
    {
        let raised = self.cur_level.saturating_add(n);
        self.cur_level = if raised < self.bytes_burst {
            raised
        } else {
            self.bytes_burst
        };
    }

    /// Ask to consume `n` bytes.  A request the bucket can satisfy in
    /// full is granted in full; otherwise, if at least one cell's worth
    /// is available, that much is granted; otherwise the caller must
    /// wait for a refill.
    pub fn take_bytes(&mut self, n: u64) -> (r: TakeOutcome)
        ensures
            final(self).dur_per_cell == old(self).dur_per_cell,
            final(self).bytes_burst == old(self).bytes_burst,
            n <= old(self).cur_level ==> r == TakeOutcome::Granted(n) && final(self).cur_level
                == old(self).cur_level - n,
            n > old(self).cur_level && BYTES_PER_CELL <= old(self).cur_level ==> r
                == TakeOutcome::Granted(BYTES_PER_CELL) && final(self).cur_level == old(
                self,
            ).cur_level - BYTES_PER_CELL,
            n > old(self).cur_level && BYTES_PER_CELL > old(self).cur_level ==> r
                == TakeOutcome::Wait && final(self).cur_level == old(self).cur_level,
    {
        if n <= self.cur_level {
            // The whole request can be satisfied, so satisfy it.
            self.cur_level = self.cur_level - n;
            TakeOutcome::Granted(n)
        } else if BYTES_PER_CELL <= self.cur_level {
            // One cell's worth can be satisfied, so grant that much.
            self.cur_level = self.cur_level - BYTES_PER_CELL;
            TakeOutcome::Granted(BYTES_PER_CELL)
        } else {
            // The request wants at least a cell's worth and the bucket
            // has less: the caller must wait for a refill.
            TakeOutcome::Wait
        }
    }
}

} // verus!
