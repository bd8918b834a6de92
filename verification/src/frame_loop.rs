//! Frame pacing by bursts: each frame releases up to three updates at once
//! and may skip the backlog that is left after them.
//!
//! This policy is kept apart from the timer's starvation cap, from which it
//! differs. The timer counts releases between two render fractions against a
//! limit that can be set, releases a step as soon as a whole one is pending,
//! and always discards the backlog when the count would pass the limit. A
//! frame loop counts anew in every frame against a cap of three, releases a
//! step only while more than one is pending, and discards what three updates
//! have left only when skipping is on and more than one step is left; with
//! skipping off the backlog waits for later frames and may grow. Its render
//! fraction is the time since the frame began, read from the clock and cut
//! off at one, not the pending time.

use crate::clock::nanos_since;
use crate::fraction::Fraction;
use std::time::Instant;
use vstd::prelude::*;

verus! {

/// What a frame loop holds, as mathematical integers. Times are nanoseconds.
pub struct FrameState {
    /// Length of one update step.
    pub interval: nat,
    /// Clock reading at which the latest frame began.
    pub last_time: nat,
    /// Elapsed time that no update has consumed yet.
    pub accumulator: nat,
    /// Whether backlog left after a burst is discarded.
    pub skip: bool,
}

impl FrameState {
    /// The step has a positive length, and no more time is pending than the
    /// clock has counted.
    pub open spec fn valid(self) -> bool {
        &&& self.interval > 0
        &&& self.accumulator <= self.last_time
    }

    /// A frame loop started at reading zero with nothing pending.
    pub open spec fn started(interval: nat, skip: bool) -> FrameState {
        FrameState { interval, last_time: 0, accumulator: 0, skip }
    }

    /// Time between the start of the latest frame and `now`; zero for a
    /// reading that is not later.
    pub open spec fn elapsed(self, now: nat) -> nat {
        if now > self.last_time {
            (now - self.last_time) as nat
        } else {
            0
        }
    }

    /// The accounting pass that opens a frame at reading `now`.
    pub open spec fn account(self, now: nat) -> FrameState {
        FrameState {
            last_time: self.last_time + self.elapsed(now),
            accumulator: self.accumulator + self.elapsed(now),
            ..self
        }
    }

    /// How many updates the pending time releases in one frame: one for
    /// every whole step that still leaves time over, and three at most.
    pub open spec fn burst(self) -> nat {
        if self.accumulator > 3 * self.interval {
            3
        } else if self.accumulator > 2 * self.interval {
            2
        } else if self.accumulator > self.interval {
            1
        } else {
            0
        }
    }

    /// The state once the burst has consumed its steps.
    pub open spec fn consumed(self) -> FrameState {
        FrameState {
            accumulator: (self.accumulator - self.burst() * self.interval) as nat,
            ..self
        }
    }

    /// The time that the burst consumes, case by case.
    proof fn lemma_burst_steps(self)
        ensures
            self.burst() == 0 ==> self.burst() * self.interval == 0,
            self.burst() == 1 ==> self.burst() * self.interval == self.interval,
            self.burst() == 2 ==> self.burst() * self.interval == 2 * self.interval,
            self.burst() == 3 ==> self.burst() * self.interval == 3 * self.interval,
            self.burst() * self.interval <= self.accumulator,
    {
        let b = self.burst();
        let i = self.interval;
        assert(b == 0 ==> b * i == 0) by (nonlinear_arith);
        assert(b == 1 ==> b * i == i) by (nonlinear_arith);
        assert(b == 2 ==> b * i == 2 * i) by (nonlinear_arith);
        assert(b == 3 ==> b * i == 3 * i) by (nonlinear_arith);
    }

    /// Frame skip: with skipping on, a backlog of more than one step is
    /// discarded.
    pub open spec fn skipped(self) -> FrameState {
        if self.skip && self.accumulator > self.interval {
            FrameState { accumulator: 0, ..self }
        } else {
            self
        }
    }

    /// How much pending time the frame skip discards.
    pub open spec fn skipped_time(self) -> nat {
        if self.skip && self.accumulator > self.interval {
            self.accumulator
        } else {
            0
        }
    }

    /// The state after the frame that begins at reading `now`.
    pub open spec fn frame(self, now: nat) -> FrameState {
        self.account(now).consumed().skipped()
    }

    /// How many updates the frame that begins at reading `now` releases.
    pub open spec fn updates(self, now: nat) -> nat {
        self.account(now).burst()
    }

    /// Time since the frame began, cut off at one step.
    pub open spec fn render_time(self, now: nat) -> nat {
        if self.elapsed(now) < self.interval {
            self.elapsed(now)
        } else {
            self.interval
        }
    }
}

/// Paces a caller's loop frame by frame. All times are nanoseconds on the
/// loop's own monotonic clock, which starts at zero when the loop is started.
pub struct FrameLoop {
    origin: Instant,
    last_time: u128,
    update_interval: u128,
    accumulator: u128,
    skip: bool,
}

impl View for FrameLoop {
    type V = FrameState;

    closed spec fn view(&self) -> FrameState {
        FrameState {
            interval: self.update_interval as nat,
            last_time: self.last_time as nat,
            accumulator: self.accumulator as nat,
            skip: self.skip,
        }
    }
}

impl FrameLoop {
    #[verifier::type_invariant]
    spec fn well_formed(self) -> bool {
        &&& self.update_interval > 0
        &&& self.accumulator <= self.last_time
    }

    /// Starts a frame loop whose update step lasts `interval_nanos`. Its
    /// clock reads zero at this moment.
    pub fn start(interval_nanos: u128, skip: bool) -> (pacer: FrameLoop)
        requires
            interval_nanos > 0,
        ensures
            pacer@ == FrameState::started(interval_nanos as nat, skip),
            pacer@.valid(),
    {
        FrameLoop {
            origin: Instant::now(),
            last_time: 0,
            update_interval: interval_nanos,
            accumulator: 0,
            skip,
        }
    }

    /// Begins a frame at the clock's present reading and returns how many
    /// updates the caller is to run in it. Whatever the clock reads, the
    /// loop moves as `frame_at` moves it for the reading that it then holds
    /// as its latest.
    pub fn frame(&mut self) -> (updates: u32)
        ensures
            final(self)@.last_time >= old(self)@.last_time,
            final(self)@ == old(self)@.frame(final(self)@.last_time),
            updates == old(self)@.updates(final(self)@.last_time),
            updates <= 3,
            final(self)@.valid(),
    {
        let now: u128 = nanos_since(&self.origin);
        self.frame_at(now)
    }

    /// Begins a frame at reading `now`: accounts for the time elapsed since
    /// the frame before, releases a burst of at most three updates, then
    /// applies the frame skip. Returns the number of updates released.
    pub fn frame_at(&mut self, now: u128) -> (updates: u32)
        ensures
            final(self)@ == old(self)@.frame(now as nat),
            updates == old(self)@.updates(now as nat),
            updates <= 3,
            final(self)@.valid(),
    {
        proof {
            use_type_invariant(&*self);
        }
        let interval: u128 = self.update_interval;
        let mut pending: u128 = self.accumulator;
        if now > self.last_time {
            pending = pending + (now - self.last_time);
        }
        let ghost backlog = pending;
        let mut updates: u32 = 0;
        while pending > interval && updates < 3
            invariant
                interval > 0,
                updates <= 3,
                updates == 0 ==> pending == backlog,
                updates == 1 ==> pending + interval == backlog && backlog > interval,
                updates == 2 ==> pending + 2 * interval == backlog && backlog > 2 * interval,
                updates == 3 ==> pending + 3 * interval == backlog && backlog > 3 * interval,
            decreases 3 - updates,
        {
            updates = updates + 1;
            pending = pending - interval;
        }
        proof {
            old(self)@.account(now as nat).lemma_burst_steps();
        }
        if self.skip && pending > interval {
            pending = 0;
        }
        if now > self.last_time {
            self.last_time = now;
        }
        self.accumulator = pending;
        updates
    }

    /// The time since the latest frame began as a fraction of one update
    /// step, cut off at one, read from the clock. Whatever the clock reads,
    /// the numerator is at most one step.
    pub fn render_delta(&self) -> (delta: Fraction)
        ensures
            delta.denominator == self@.interval,
            delta.at_most_one(),
    {
        let now: u128 = nanos_since(&self.origin);
        self.render_delta_at(now)
    }

    /// The time between the start of the latest frame and reading `now` as a
    /// fraction of one update step, cut off at one.
    pub fn render_delta_at(&self, now: u128) -> (delta: Fraction)
        ensures
            delta.numerator == self@.render_time(now as nat),
            delta.denominator == self@.interval,
            delta.at_most_one(),
    {
        proof {
            use_type_invariant(self);
        }
        let elapsed: u128 = if now > self.last_time {
            now - self.last_time
        } else {
            0
        };
        let shown: u128 = if elapsed < self.update_interval {
            elapsed
        } else {
            self.update_interval
        };
        Fraction { numerator: shown, denominator: self.update_interval }
    }

    /// Length of one update step.
    pub fn update_interval(&self) -> (nanos: u128)
        ensures
            nanos == self@.interval,
            nanos > 0,
    {
        proof {
            use_type_invariant(self);
        }
        self.update_interval
    }

    /// Clock reading at which the latest frame began.
    pub fn last_time(&self) -> (nanos: u128)
        ensures
            nanos == self@.last_time,
    {
        self.last_time
    }

    /// Elapsed time that no update has consumed yet.
    pub fn accumulator(&self) -> (nanos: u128)
        ensures
            nanos == self@.accumulator,
            nanos <= self@.last_time,
    {
        proof {
            use_type_invariant(self);
        }
        self.accumulator
    }

    /// Whether backlog left after a burst is discarded.
    pub fn skips(&self) -> (skip: bool)
        ensures
            skip == self@.skip,
    {
        self.skip
    }
}

/// A frame keeps a valid loop valid and releases three updates at most. The
/// steps released, the time still pending and the time that the frame skip
/// discarded add up to the time that was pending before plus the time
/// elapsed. Nothing is discarded with skipping off, nor by a frame that
/// released fewer than three updates; with skipping on, or after fewer than
/// three updates, at most one step stays pending.
pub proof fn law_frame_accounts_time(s: FrameState, now: nat)
    requires
        s.valid(),
    ensures
        s.frame(now).valid(),
        s.frame(now).interval == s.interval,
        s.frame(now).skip == s.skip,
        s.frame(now).last_time >= s.last_time,
        s.frame(now).last_time >= now,
        s.updates(now) <= 3,
        s.updates(now) * s.interval + s.frame(now).accumulator + s.account(
            now,
        ).consumed().skipped_time() == s.accumulator + s.elapsed(now),
        !s.skip || s.updates(now) < 3 ==> s.account(now).consumed().skipped_time() == 0,
        s.skip || s.updates(now) < 3 ==> s.frame(now).accumulator <= s.interval,
{
    s.account(now).lemma_burst_steps();
}

} // verus!
