//! Rate-limited byte delivery.
//!
//! The throttle enforces a byte-per-second budget with a delay that lags by
//! one chunk: before delivering the next chunk, the driver must have waited
//! at least `last_chunk_size / budget` seconds since the previous delivery.
//! Suspension itself (a blocking sleep or a scheduler timer) is the driver's
//! job; the throttle computes, from the size of the previous chunk and the
//! wall-clock milliseconds already elapsed, exactly how long to wait, and a
//! nonpositive requirement means no delay.  Zero-byte deliveries never
//! update the tracked chunk size, so an exhausted or empty pull cannot
//! collapse the throttle window.

use crate::source::ByteSource;
use crate::source::SourceError;
use vstd::arithmetic::div_mod::lemma_fundamental_div_mod;
use vstd::arithmetic::mul::lemma_mul_is_distributive_add;
use vstd::prelude::*;

verus! {

/// Milliseconds of delay a delivered chunk imposes before the next pull:
/// `chunk / budget` seconds, rounded up to whole milliseconds so the wait
/// is never shorter than the exact quotient.
pub open spec fn delay_millis_for(chunk: int, budget: int) -> int
    recommends
        budget >= 1,
        chunk >= 0,
{
    if budget <= 0 {
        0
    } else {
        (1000 * chunk + budget - 1) / budget
    }
}

/// Clamp an ideal delay into the range of u64 milliseconds.
pub open spec fn clamped_delay(v: int) -> int {
    if v < 0 {
        0
    } else if v > u64::MAX {
        u64::MAX as int
    } else {
        v
    }
}

/// Throttle bookkeeping: the configured budget in bytes per second and the
/// size of the last delivered chunk.
pub struct Throttle {
    budget: u64,
    last_chunk: usize,
}

impl Throttle {
    pub closed spec fn budget(&self) -> u64 {
        self.budget
    }

    /// The size of the last delivered (nonempty) chunk; zero before the
    /// first delivery, so the first chunk is never delayed.
    pub closed spec fn last_delivered(&self) -> usize {
        self.last_chunk
    }

    pub closed spec fn inv(&self) -> bool {
        self.budget >= 1
    }

    pub fn new(budget: u64) -> (r: Throttle)
        requires
            budget >= 1,
        ensures
            r.inv(),
            r.budget() == budget,
            r.last_delivered() == 0,
    {
        Throttle { budget, last_chunk: 0 }
    }

    /// How many milliseconds the driver must still wait before pulling
    /// again, given how many have already passed since the last delivery.
    pub fn required_delay_millis(&self, elapsed_millis: u64) -> (r: u64)
        requires
            self.inv(),
        ensures
            r as int == clamped_delay(
                delay_millis_for(self.last_delivered() as int, self.budget() as int)
                    - elapsed_millis,
            ),
    {
        let b: u128 = self.budget as u128;
        let need: u128 = (1000u128 * (self.last_chunk as u128) + (b - 1)) / b;
        let e: u128 = elapsed_millis as u128;
        if need > e {
            let d = need - e;
            if d > u64::MAX as u128 {
                u64::MAX
            } else {
                d as u64
            }
        } else {
            0
        }
    }

    /// Note a delivery; a zero-byte delivery leaves the tracking unchanged.
    pub fn record(&mut self, delivered: usize)
        requires
            old(self).inv(),
        ensures
            final(self).inv(),
            final(self).budget() == old(self).budget(),
            final(self).last_delivered() == if delivered > 0 {
                delivered
            } else {
                old(self).last_delivered()
            },
    {
        if delivered > 0 {
            self.last_chunk = delivered;
        }
    }
}

/// The sum of a sequence of chunk sizes.
pub open spec fn sum_of(chunks: Seq<int>) -> int
    decreases chunks.len(),
{
    if chunks.len() == 0 {
        0
    } else {
        sum_of(chunks.drop_last()) + chunks.last()
    }
}

/// The total delay the throttle imposes over a full drain that delivers the
/// given chunks: the driver waits `delay_millis_for(c)` after each delivered
/// chunk `c` before the pull that follows it (the pull that observes
/// end-of-stream included), and the first chunk is not delayed.
pub open spec fn total_delay_millis(chunks: Seq<int>, budget: int) -> int
    decreases chunks.len(),
{
    if chunks.len() == 0 {
        0
    } else {
        total_delay_millis(chunks.drop_last(), budget) + delay_millis_for(chunks.last(), budget)
    }
}

/// Rounding up never waits less than the exact quotient.
proof fn lemma_ceil_div_lower_bound(a: int, b: int)
    requires
        a >= 0,
        b >= 1,
    ensures
        b * ((a + b - 1) / b) >= a,
{
    lemma_fundamental_div_mod(a + b - 1, b);
}

/// Law (drain time): with budget `B` bytes per second, a full drain that
/// delivers `N` bytes in total waits at least `N / B` seconds of imposed
/// delay, and hence at least `(N - first_chunk) / B` seconds, since the
/// first chunk is delivered without any wait.  Stated multiplicatively over
/// milliseconds to avoid rounding: `B * total_delay >= 1000 * N`.
pub proof fn lemma_drain_time_lower_bound(chunks: Seq<int>, budget: int)
    requires
        budget >= 1,
        forall|i: int| 0 <= i < chunks.len() ==> chunks[i] >= 0,
    ensures
        budget * total_delay_millis(chunks, budget) >= 1000 * sum_of(chunks),
        chunks.len() > 0 ==> budget * total_delay_millis(chunks, budget) >= 1000 * (sum_of(chunks)
            - chunks.first()),
    decreases chunks.len(),
{
    if chunks.len() == 0 {
    } else {
        let rest = chunks.drop_last();
        let c = chunks.last();
        lemma_drain_time_lower_bound(rest, budget);
        lemma_ceil_div_lower_bound(1000 * c, budget);
        lemma_mul_is_distributive_add(
            budget,
            total_delay_millis(rest, budget),
            delay_millis_for(c, budget),
        );
        if chunks.len() > 1 {
            assert(rest.first() == chunks.first());
            assert(sum_of(chunks) == sum_of(rest) + c);
        }
    }
}

/// Wraps a byte source, leaving its bytes unchanged while keeping the
/// bookkeeping a rate-limiting driver needs.  The wrapped stream's content
/// does not depend on timing, so however suspension is realised (blocking a
/// thread or yielding to a scheduler), the delivered bytes are identical.
pub struct ThrottledSource<S> {
    inner: S,
    throttle: Throttle,
}

impl<S: ByteSource> ThrottledSource<S> {
    pub fn new(inner: S, budget: u64) -> (r: ThrottledSource<S>)
        requires
            inner.inv(),
            budget >= 1,
        ensures
            r.inv(),
            r.remaining() == inner.remaining(),
            r.budget() == budget,
            r.last_delivered() == 0,
    {
        ThrottledSource { inner, throttle: Throttle::new(budget) }
    }

    pub closed spec fn budget(&self) -> u64 {
        self.throttle.budget()
    }

    pub closed spec fn last_delivered(&self) -> usize {
        self.throttle.last_delivered()
    }

    /// How many milliseconds the driver must still wait before the next
    /// pull, based on the previous delivered chunk and the time already
    /// elapsed since it was delivered.
    pub fn required_delay_millis(&self, elapsed_millis: u64) -> (r: u64)
        requires
            self.inv(),
        ensures
            r as int == clamped_delay(
                delay_millis_for(self.last_delivered() as int, self.budget() as int)
                    - elapsed_millis,
            ),
    {
        self.throttle.required_delay_millis(elapsed_millis)
    }
}

impl<S: ByteSource> ByteSource for ThrottledSource<S> {
    closed spec fn remaining(&self) -> Seq<u8> {
        self.inner.remaining()
    }

    closed spec fn inv(&self) -> bool {
        self.inner.inv() && self.throttle.inv()
    }

    /// Pull after any required wait; a delivered nonempty chunk becomes the
    /// new basis for the next delay, while empty pulls leave it unchanged.
    fn pull(&mut self, max: usize) -> (r: Result<Vec<u8>, SourceError>)
        ensures
            final(self).budget() == old(self).budget(),
            match r {
                Ok(chunk) => final(self).last_delivered() as int == if chunk@.len() > 0 {
                    chunk@.len() as int
                } else {
                    old(self).last_delivered() as int
                },
                Err(_) => final(self).last_delivered() == old(self).last_delivered(),
            },
    {
        match self.inner.pull(max) {
            Ok(chunk) => {
                self.throttle.record(chunk.len());
                Ok(chunk)
            },
            Err(e) => Err(e),
        }
    }
}

} // verus!
