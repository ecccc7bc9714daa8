//! The periodic limiter that limits how often a frame is handed to the renderer,
//! however fast the producer changes pixels.
use vstd::prelude::*;
use vstd::arithmetic::div_mod::lemma_mod_add_multiples_vanish;

verus! {

/// Interval of the frame limit unless another is configured.
pub const DEFAULT_FRAME_INTERVAL_MS: u64 = 100;

/// A repeating timer: it fires on each tick that completes an interval, and
/// carries the time beyond it into the next one. A zero interval fires on
/// every tick.
pub struct FrameLimit {
    interval_ms: u64,
    elapsed_ms: u64,
}

/// The state after a tick of `delta` and whether the tick fired, from the
/// interval and the time elapsed in it before.
pub open spec fn tick_outcome(interval: u64, elapsed: u64, delta: u64) -> (u64, bool) {
    if interval == 0 {
        (0, true)
    } else if elapsed + delta >= interval {
        (((elapsed + delta) % (interval as int)) as u64, true)
    } else {
        ((elapsed + delta) as u64, false)
    }
}

impl View for FrameLimit {
    /// The interval and the time elapsed in the current one.
    type V = (u64, u64);

    closed spec fn view(&self) -> (u64, u64) {
        (self.interval_ms, self.elapsed_ms)
    }
}

impl FrameLimit {
    /// The elapsed time lies within the interval.
    pub open spec fn wf(&self) -> bool {
        self@.1 < self@.0 || self@.1 == 0
    }

    /// A frame limit that fires every `interval_ms` milliseconds, starting now.
    pub fn new(interval_ms: u64) -> (r: FrameLimit)
        ensures
            r@ == (interval_ms, 0u64),
            r.wf(),
    {
        FrameLimit { interval_ms, elapsed_ms: 0 }
    }

    /// The configured interval.
    pub fn interval_ms(&self) -> (r: u64)
        ensures
            r == self@.0,
    {
        self.interval_ms
    }

    /// Time elapsed in the current interval.
    pub fn elapsed_ms(&self) -> (r: u64)
        ensures
            r == self@.1,
    {
        self.elapsed_ms
    }

    /// Advances the frame limit by `delta_ms`; returns whether an interval was
    /// completed by this tick.
    pub fn tick(&mut self, delta_ms: u64) -> (fired: bool)
        requires
            old(self).wf(),
        ensures
            final(self).wf(),
            final(self)@.0 == old(self)@.0,
            (final(self)@.1, fired) == tick_outcome(old(self)@.0, old(self)@.1, delta_ms),
    {
        if self.interval_ms == 0 {
            self.elapsed_ms = 0;
            return true;
        }
        let remaining = self.interval_ms - self.elapsed_ms;
        if delta_ms >= remaining {
            let carried = delta_ms - remaining;
            proof {
                lemma_mod_add_multiples_vanish(carried as int, self.interval_ms as int);
                assert(self.elapsed_ms + delta_ms == self.interval_ms + carried);
            }
            self.elapsed_ms = carried % self.interval_ms;
            true
        } else {
            self.elapsed_ms = self.elapsed_ms + delta_ms;
            false
        }
    }
}

} // verus!
