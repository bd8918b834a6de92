//! The timer as a state machine over mathematical integers.
//!
//! Every time is a count of nanoseconds. The executable timer in
//! `crate::timer` is specified by the transitions defined here.

use vstd::prelude::*;

verus! {

/// What a timer holds.
pub struct TimerState {
    /// Length of one update step.
    pub interval: nat,
    /// Clock reading of the latest accounting pass.
    pub last_time: nat,
    /// Elapsed time that no update has consumed yet.
    pub accumulator: nat,
    /// Updates released since the render fraction was last taken.
    pub counter: nat,
    /// How many updates may be released between two render fractions.
    pub limit: nat,
}

impl TimerState {
    /// The step has a positive length, and no more time is pending than the
    /// clock has counted.
    pub open spec fn valid(self) -> bool {
        &&& self.interval > 0
        &&& self.accumulator <= self.last_time
    }

    /// The release count respects the limit.
    pub open spec fn within_limit(self) -> bool {
        self.counter <= self.limit
    }

    /// A timer started at reading `now`: nothing pending, nothing released,
    /// and a limit of three updates.
    pub open spec fn started(interval: nat, now: nat) -> TimerState {
        TimerState { interval, last_time: now, accumulator: 0, counter: 0, limit: 3 }
    }

    /// The same timer with another limit.
    pub open spec fn with_limit(self, limit: nat) -> TimerState {
        TimerState { limit, ..self }
    }

    /// The timer re-synchronised to reading `now`, backlog and count cleared.
    pub open spec fn reset(self, now: nat) -> TimerState {
        TimerState { last_time: now, accumulator: 0, counter: 0, ..self }
    }

    /// Time between the latest reading and `now`; zero for a reading that is
    /// not later.
    pub open spec fn elapsed(self, now: nat) -> nat {
        if now > self.last_time {
            (now - self.last_time) as nat
        } else {
            0
        }
    }

    /// The accounting pass: the time elapsed up to `now` joins the backlog,
    /// and `now` becomes the latest reading unless it lies in the past.
    pub open spec fn account(self, now: nat) -> TimerState {
        TimerState {
            last_time: self.last_time + self.elapsed(now),
            accumulator: self.accumulator + self.elapsed(now),
            ..self
        }
    }

    /// A whole step is pending.
    pub open spec fn due(self) -> bool {
        self.accumulator >= self.interval
    }

    /// A step is pending, but releasing it would exceed the limit.
    pub open spec fn starved(self) -> bool {
        self.due() && self.counter + 1 > self.limit
    }

    /// A step is pending and may be released.
    pub open spec fn fires(self) -> bool {
        self.due() && self.counter + 1 <= self.limit
    }

    /// The decision taken after accounting: nothing when no step is pending,
    /// the whole backlog discarded when the timer is starved, one step
    /// consumed otherwise.
    pub open spec fn release(self) -> TimerState {
        if !self.due() {
            self
        } else if self.starved() {
            TimerState { accumulator: 0, counter: 0, ..self }
        } else {
            TimerState {
                accumulator: (self.accumulator - self.interval) as nat,
                counter: self.counter + 1,
                ..self
            }
        }
    }

    /// The state after one update that reads `now`.
    pub open spec fn update(self, now: nat) -> TimerState {
        self.account(now).release()
    }

    /// Whether an update that reads `now` releases a step.
    pub open spec fn ticks(self, now: nat) -> bool {
        self.account(now).fires()
    }

    /// Whether an update that reads `now` discards the backlog.
    pub open spec fn starves(self, now: nat) -> bool {
        self.account(now).starved()
    }

    /// The state after the render fraction was taken.
    pub open spec fn rendered(self) -> TimerState {
        TimerState { counter: 0, ..self }
    }

    /// The state after one update per reading, taken in order.
    pub open spec fn run(self, readings: Seq<nat>) -> TimerState
        decreases readings.len(),
    {
        if readings.len() == 0 {
            self
        } else {
            self.run(readings.drop_last()).update(readings.last())
        }
    }

    /// How many of those updates released a step.
    pub open spec fn released(self, readings: Seq<nat>) -> nat
        decreases readings.len(),
    {
        if readings.len() == 0 {
            0
        } else {
            let before = self.run(readings.drop_last());
            let step: nat = if before.ticks(readings.last()) {
                1
            } else {
                0
            };
            self.released(readings.drop_last()) + step
        }
    }

    /// How much pending time those updates discarded for starvation.
    pub open spec fn discarded(self, readings: Seq<nat>) -> nat
        decreases readings.len(),
    {
        if readings.len() == 0 {
            0
        } else {
            let before = self.run(readings.drop_last());
            let lost: nat = if before.starves(readings.last()) {
                before.account(readings.last()).accumulator
            } else {
                0
            };
            self.discarded(readings.drop_last()) + lost
        }
    }
}

} // verus!
