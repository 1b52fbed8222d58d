//! The fixed-rate movement clock.

use vstd::prelude::*;
use vstd::arithmetic::div_mod::{lemma_mod_add_multiples_vanish, lemma_small_mod};

verus! {

/// Nanoseconds between two moves of the snake: ten moves a second.
pub const MOVE_INTERVAL_NANOS: u64 = 100_000_000;

/// What a [`MoveTimer`] holds: the time accumulated since it last fired and
/// the fixed interval, both in nanoseconds.
pub ghost struct TimerState {
    pub elapsed: nat,
    pub interval: nat,
}

/// A repeating timer that fires once per call of `tick` whenever the
/// accumulated time reaches the interval, carrying the remainder over.
#[derive(Debug)]
pub struct MoveTimer {
    elapsed: u64,
    interval: u64,
}

impl View for MoveTimer {
    type V = TimerState;

    closed spec fn view(&self) -> TimerState {
        TimerState { elapsed: self.elapsed as nat, interval: self.interval as nat }
    }
}

impl MoveTimer {
    #[verifier::type_invariant]
    spec fn inv(self) -> bool {
        self.elapsed < self.interval
    }

    pub fn new(interval_nanos: u64) -> (r: MoveTimer)
        requires
            interval_nanos > 0,
        ensures
            r@.elapsed == 0,
            r@.interval == interval_nanos,
    {
        MoveTimer { elapsed: 0, interval: interval_nanos }
    }

    pub fn interval_nanos(&self) -> (r: u64)
        ensures
            r == self@.interval,
    {
        self.interval
    }

    pub fn elapsed_nanos(&self) -> (r: u64)
        ensures
            r == self@.elapsed,
    {
        self.elapsed
    }

    /// Adds `delta` nanoseconds; returns whether the interval was reached.
    /// Several intervals passing in one call still fire only once.
    pub fn tick(&mut self, delta: u64) -> (fired: bool)
        ensures
            0 < old(self)@.interval,
            fired == (old(self)@.elapsed + delta >= old(self)@.interval),
            final(self)@.interval == old(self)@.interval,
            final(self)@.elapsed == (old(self)@.elapsed + delta) % (old(self)@.interval as int),
    {
        proof {
            use_type_invariant(&*self);
        }
        let room = self.interval - self.elapsed;
        if delta >= room {
            let rest = delta - room;
            proof {
                let m = self.interval as int;
                lemma_mod_add_multiples_vanish(rest as int, m);
                assert(self.elapsed + delta == m + rest);
            }
            self.elapsed = rest % self.interval;
            true
        } else {
            proof {
                lemma_small_mod((self.elapsed + delta) as nat, self.interval as nat);
            }
            self.elapsed = self.elapsed + delta;
            false
        }
    }

    /// Drops the accumulated time.
    pub fn reset(&mut self)
        ensures
            final(self)@.elapsed == 0,
            final(self)@.interval == old(self)@.interval,
    {
        proof {
            use_type_invariant(&*self);
        }
        self.elapsed = 0;
    }
}

} // verus!
