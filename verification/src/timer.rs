//! The fixed-step timer.

use crate::clock::nanos_since;
use crate::fraction::Fraction;
use crate::state::TimerState;
use std::time::Instant;
use vstd::prelude::*;

verus! {

/// Accumulates elapsed time and releases it in update steps of a fixed
/// length. All times are nanoseconds on the timer's own monotonic clock,
/// which starts at zero when the timer is started.
///
/// The caller drives it: `update` again and again until it returns `false`,
/// running one simulation step for each `true`; then `render_delta` once for
/// the frame to draw. The `_at` methods take the clock reading as an
/// argument, so that any course of time can be played through a timer.
pub struct FixedStep {
    origin: Instant,
    last_time: u128,
    update_interval: u128,
    accumulator: u128,
    update_counter: u32,
    update_limit: u32,
}

impl View for FixedStep {
    type V = TimerState;

    closed spec fn view(&self) -> TimerState {
        TimerState {
            interval: self.update_interval as nat,
            last_time: self.last_time as nat,
            accumulator: self.accumulator as nat,
            counter: self.update_counter as nat,
            limit: self.update_limit as nat,
        }
    }
}

impl FixedStep {
    /// The step has a positive length. The pending time never exceeds the
    /// latest reading, which is why adding elapsed time to it cannot overflow.
    #[verifier::type_invariant]
    spec fn well_formed(self) -> bool {
        &&& self.update_interval > 0
        &&& self.accumulator <= self.last_time
    }

    /// Starts a timer whose update step lasts `interval_nanos`. Its clock
    /// reads zero at this moment.
    pub fn start(interval_nanos: u128) -> (timer: FixedStep)
        requires
            interval_nanos > 0,
        ensures
            timer@ == TimerState::started(interval_nanos as nat, 0),
            timer@.valid(),
            timer@.within_limit(),
    {
        FixedStep {
            origin: Instant::now(),
            last_time: 0,
            update_interval: interval_nanos,
            accumulator: 0,
            update_counter: 0,
            update_limit: 3,
        }
    }

    /// Sets how many updates may be released between two render fractions.
    /// Timing state is left as it is, the release count too: a limit below
    /// the count makes the next pending step starve.
    pub fn limit(self, limit: u32) -> (timer: FixedStep)
        ensures
            timer@ == self@.with_limit(limit as nat),
            timer@.valid(),
            timer@.within_limit() <==> self@.counter <= limit,
    {
        proof {
            use_type_invariant(&self);
        }
        let mut timer = self;
        timer.update_limit = limit;
        timer
    }

    /// Raises the limit to the largest count there is. A long stall is then
    /// caught up step by step instead of being discarded, so the simulation
    /// may for a while run ahead of what is rendered.
    pub fn unlimit(self) -> (timer: FixedStep)
        ensures
            timer@ == self@.with_limit(u32::MAX as nat),
            timer@.valid(),
            timer@.within_limit(),
    {
        self.limit(u32::MAX)
    }

    /// Restarts the timer at the clock's present reading and clears any
    /// waiting updates. Whatever the clock reads, the timer is left as
    /// `reset_at` leaves it for that reading.
    pub fn reset(&mut self)
        ensures
            final(self)@ == old(self)@.reset(final(self)@.last_time),
            final(self)@.valid(),
            final(self)@.within_limit(),
    {
        let now: u128 = nanos_since(&self.origin);
        self.reset_at(now)
    }

    /// Restarts the timer at reading `now` and clears any waiting updates.
    pub fn reset_at(&mut self, now: u128)
        ensures
            final(self)@ == old(self)@.reset(now as nat),
            final(self)@.valid(),
            final(self)@.within_limit(),
    {
        proof {
            use_type_invariant(&*self);
        }
        self.accumulator = 0;
        self.update_counter = 0;
        self.last_time = now;
    }

    /// One update that reads the clock. Whatever the clock reads, the timer
    /// moves as `update_at` moves it for the reading that it then holds as
    /// its latest, and that reading is not earlier than the one before.
    pub fn update(&mut self) -> (ticked: bool)
        ensures
            final(self)@.last_time >= old(self)@.last_time,
            final(self)@ == old(self)@.update(final(self)@.last_time),
            ticked == old(self)@.ticks(final(self)@.last_time),
            !ticked ==> final(self)@.accumulator < final(self)@.interval,
            final(self)@.valid(),
            old(self)@.within_limit() ==> final(self)@.within_limit(),
    {
        let now: u128 = nanos_since(&self.origin);
        self.update_at(now)
    }

    /// One update that reads `now`: accounts for the time elapsed since the
    /// latest reading, then releases one step, discards the backlog, or does
    /// neither. Returns whether a step was released.
    pub fn update_at(&mut self, now: u128) -> (ticked: bool)
        ensures
            final(self)@ == old(self)@.update(now as nat),
            ticked == old(self)@.ticks(now as nat),
            !ticked ==> final(self)@.accumulator < final(self)@.interval,
            final(self)@.valid(),
            old(self)@.within_limit() ==> final(self)@.within_limit(),
    {
        proof {
            use_type_invariant(&*self);
        }
        if now > self.last_time {
            let elapsed: u128 = now - self.last_time;
            self.last_time = now;
            self.accumulator = self.accumulator + elapsed;
        }
        if self.accumulator >= self.update_interval {
            if self.update_counter >= self.update_limit {
                self.accumulator = 0;
                self.update_counter = 0;
                false
            } else {
                self.update_counter = self.update_counter + 1;
                self.accumulator = self.accumulator - self.update_interval;
                true
            }
        } else {
            false
        }
    }

    /// The pending time as a fraction of one update step, for interpolating
    /// between the latest released step and the next. Taking it clears the
    /// release count. It is meant to be taken once `update` has returned
    /// `false`: the fraction is below one exactly when no whole step is
    /// pending.
    pub fn render_delta(&mut self) -> (delta: Fraction)
        ensures
            delta.numerator == old(self)@.accumulator,
            delta.denominator == old(self)@.interval,
            delta.denominator > 0,
            delta.below_one() <==> !old(self)@.due(),
            final(self)@ == old(self)@.rendered(),
            final(self)@.valid(),
            final(self)@.within_limit(),
    {
        proof {
            use_type_invariant(&*self);
        }
        self.update_counter = 0;
        Fraction { numerator: self.accumulator, denominator: self.update_interval }
    }

    /// Length of one update step.
    pub fn update_interval(&self) -> (nanos: u128)
        ensures
            nanos == self@.interval,
            nanos > 0,
    {
        proof {
            use_type_invariant(self);
        }
        self.update_interval
    }

    /// Clock reading of the latest accounting pass.
    pub fn last_time(&self) -> (nanos: u128)
        ensures
            nanos == self@.last_time,
    {
        self.last_time
    }

    /// Elapsed time that no update has consumed yet.
    pub fn accumulator(&self) -> (nanos: u128)
        ensures
            nanos == self@.accumulator,
            nanos <= self@.last_time,
    {
        proof {
            use_type_invariant(self);
        }
        self.accumulator
    }

    /// Updates released since the render fraction was last taken.
    pub fn update_counter(&self) -> (count: u32)
        ensures
            count == self@.counter,
    {
        self.update_counter
    }

    /// How many updates may be released between two render fractions.
    pub fn update_limit(&self) -> (count: u32)
        ensures
            count == self@.limit,
    {
        self.update_limit
    }
}

} // verus!
