//! Laws of the timer's state machine.

use crate::state::TimerState;
use vstd::prelude::*;

verus! {

/// An update keeps a valid timer valid, never touches the step length or the
/// limit, never moves the latest reading back, and keeps the release count
/// within the limit where it was so before.
pub proof fn law_update_preserves_invariants(s: TimerState, now: nat)
    requires
        s.valid(),
    ensures
        s.update(now).valid(),
        s.update(now).interval == s.interval,
        s.update(now).limit == s.limit,
        s.update(now).last_time >= s.last_time,
        s.update(now).last_time >= now,
        s.within_limit() ==> s.update(now).within_limit(),
{
}

/// An update that releases nothing leaves less than one step pending: either
/// too little time had passed, and the update was the accounting pass alone,
/// or the timer was starved, and nothing is left pending or counted.
pub proof fn law_drained_below_one_step(s: TimerState, now: nat)
    requires
        s.valid(),
        !s.ticks(now),
    ensures
        s.update(now).accumulator < s.update(now).interval,
        s.starves(now) ==> s.update(now).accumulator == 0 && s.update(now).counter == 0,
        !s.starves(now) ==> s.update(now) == s.account(now),
{
}

/// A reading that is not later than the latest one adds no time.
pub proof fn law_stale_reading_adds_nothing(s: TimerState, now: nat)
    requires
        now <= s.last_time,
    ensures
        s.account(now) == s,
        s.update(now) == s.release(),
{
}

/// Resetting twice at one reading is resetting once; a reset timer is a
/// freshly started one with the limit kept; and it releases nothing until a
/// whole step has passed since the reset.
pub proof fn law_reset_clears_backlog(s: TimerState, now: nat, next: nat)
    requires
        s.valid(),
    ensures
        s.reset(now).valid(),
        s.reset(now).within_limit(),
        s.reset(now).reset(now) == s.reset(now),
        s.reset(now) == TimerState::started(s.interval, now).with_limit(s.limit),
        !s.reset(now).ticks(now),
        s.reset(now).update(now) == s.reset(now),
        s.reset(now).ticks(next) ==> next >= now + s.interval,
{
}

/// A run of updates keeps a valid timer valid and leaves the step length and
/// the limit alone. The latest reading never moves back and is no earlier
/// than any reading of the run. The release count stays within the limit
/// where it was so before.
pub proof fn law_run_preserves_invariants(s: TimerState, readings: Seq<nat>)
    requires
        s.valid(),
    ensures
        s.run(readings).valid(),
        s.run(readings).interval == s.interval,
        s.run(readings).limit == s.limit,
        s.run(readings).last_time >= s.last_time,
        forall|i: int| 0 <= i < readings.len() ==> s.run(readings).last_time >= readings[i],
        s.within_limit() ==> s.run(readings).within_limit(),
    decreases readings.len(),
{
    if readings.len() > 0 {
        let earlier = readings.drop_last();
        law_run_preserves_invariants(s, earlier);
        law_update_preserves_invariants(s.run(earlier), readings.last());
        assert forall|i: int| 0 <= i < readings.len() implies s.run(readings).last_time
            >= readings[i] by {
            if i < earlier.len() {
                assert(earlier[i] == readings[i]);
            }
        }
    }
}

/// Conservation of time. Over any run of updates, the steps released, the
/// time still pending and the time discarded for starvation add up to the
/// time that was pending before plus the time that the clock has counted.
pub proof fn law_conservation(s: TimerState, readings: Seq<nat>)
    requires
        s.valid(),
    ensures
        s.run(readings).last_time >= s.last_time,
        s.released(readings) * s.interval + s.run(readings).accumulator + s.discarded(readings)
            == s.accumulator + (s.run(readings).last_time - s.last_time),
    decreases readings.len(),
{
    if readings.len() > 0 {
        let earlier = readings.drop_last();
        law_conservation(s, earlier);
        law_run_preserves_invariants(s, earlier);
        assert((s.released(earlier) + 1) * s.interval == s.released(earlier) * s.interval
            + s.interval) by (nonlinear_arith);
    } else {
        assert(0 * s.interval == 0) by (nonlinear_arith);
    }
}

/// Whether some update of the run found the timer starved.
pub open spec fn starved_during(s: TimerState, readings: Seq<nat>) -> bool {
    exists|i: int|
        0 <= i < readings.len() && #[trigger] s.run(readings.take(i)).starves(readings[i])
}

/// Absent starvation no time is lost: the steps released and the time still
/// pending account for all the time that was pending or has elapsed.
pub proof fn law_no_loss_without_starvation(s: TimerState, readings: Seq<nat>)
    requires
        s.valid(),
        !starved_during(s, readings),
    ensures
        s.discarded(readings) == 0,
        s.released(readings) * s.interval + s.run(readings).accumulator == s.accumulator + (s.run(
            readings,
        ).last_time - s.last_time),
    decreases readings.len(),
{
    law_conservation(s, readings);
    if readings.len() > 0 {
        let earlier = readings.drop_last();
        assert forall|i: int| 0 <= i < earlier.len() implies !(#[trigger] s.run(
            earlier.take(i),
        ).starves(earlier[i])) by {
            assert(earlier.take(i) == readings.take(i));
            assert(!s.run(readings.take(i)).starves(readings[i]));
        }
        law_no_loss_without_starvation(s, earlier);
        assert(readings.take(readings.len() - 1) == earlier);
        assert(!s.run(readings.take(readings.len() - 1)).starves(readings[readings.len() - 1]));
    }
}

/// A backlog within the limit is released in full. Let a timer within its
/// limit have room for as many updates as the run has readings, and let the
/// first accounting pass find at least that many steps pending. Then every
/// update of the run releases a step, whatever the clock reads meanwhile,
/// and nothing is discarded.
pub proof fn law_backlog_releases(s: TimerState, readings: Seq<nat>)
    requires
        s.valid(),
        s.within_limit(),
        readings.len() <= s.limit - s.counter,
        readings.len() > 0 ==> s.account(readings[0]).accumulator >= readings.len() * s.interval,
    ensures
        forall|i: int|
            0 <= i < readings.len() ==> #[trigger] s.run(readings.take(i)).ticks(readings[i]),
        s.released(readings) == readings.len(),
        s.discarded(readings) == 0,
        s.run(readings).counter == s.counter + readings.len(),
        s.run(readings).accumulator + readings.len() * s.interval == s.accumulator + (s.run(
            readings,
        ).last_time - s.last_time),
    decreases readings.len(),
{
    law_conservation(s, readings);
    if readings.len() > 0 {
        let earlier = readings.drop_last();
        let before = s.run(earlier);
        let now = readings.last();
        assert(earlier.len() * s.interval + s.interval == readings.len() * s.interval)
            by (nonlinear_arith)
            requires
                earlier.len() + 1 == readings.len(),
        ;
        law_backlog_releases(s, earlier);
        law_run_preserves_invariants(s, earlier);
        if earlier.len() > 0 {
            assert(before.last_time >= earlier[0]);
        }
        assert(before.ticks(now));
        assert forall|i: int| 0 <= i < readings.len() implies #[trigger] s.run(
            readings.take(i),
        ).ticks(readings[i]) by {
            if i < earlier.len() {
                assert(earlier.take(i) == readings.take(i));
                assert(s.run(earlier.take(i)).ticks(earlier[i]));
            } else {
                assert(readings.take(i) == earlier);
            }
        }
    }
}

/// The starvation cap. Let a timer within its limit have room for `n` more
/// updates, and let the first accounting pass find at least `n + 1` steps
/// pending. Then the next `n` updates each release a step, whatever the clock
/// reads meanwhile, and the update after them releases none: it finds the
/// timer starved and leaves nothing pending and nothing counted.
pub proof fn law_starvation_cap(s: TimerState, readings: Seq<nat>)
    requires
        s.valid(),
        s.within_limit(),
        readings.len() == s.limit - s.counter + 1,
        s.account(readings[0]).accumulator >= (s.limit - s.counter + 1) * s.interval,
    ensures
        forall|i: int|
            0 <= i < readings.len() - 1 ==> #[trigger] s.run(readings.take(i)).ticks(readings[i]),
        s.run(readings.drop_last()).starves(readings.last()),
        !s.run(readings.drop_last()).ticks(readings.last()),
        s.released(readings) == s.limit - s.counter,
        s.run(readings).accumulator == 0,
        s.run(readings).counter == 0,
{
    let earlier = readings.drop_last();
    assert(earlier.len() * s.interval + s.interval == readings.len() * s.interval)
        by (nonlinear_arith)
        requires
            earlier.len() + 1 == readings.len(),
    ;
    law_backlog_releases(s, earlier);
    law_run_preserves_invariants(s, earlier);
    if earlier.len() > 0 {
        assert(s.run(earlier).last_time >= earlier[0]);
    }
    assert forall|i: int| 0 <= i < readings.len() - 1 implies #[trigger] s.run(
        readings.take(i),
    ).ticks(readings[i]) by {
        assert(earlier.take(i) == readings.take(i));
        assert(s.run(earlier.take(i)).ticks(earlier[i]));
    }
}

/// Taking the render fraction changes the release count alone and re-arms
/// the limit: a backlog of no more steps than the limit is then released in
/// full by the updates that follow.
pub proof fn law_render_rearms(s: TimerState, readings: Seq<nat>)
    requires
        s.valid(),
        0 < readings.len() <= s.limit,
        s.rendered().account(readings[0]).accumulator >= readings.len() * s.interval,
    ensures
        s.rendered() == (TimerState { counter: 0, ..s }),
        s.rendered().valid(),
        forall|i: int|
            0 <= i < readings.len() ==> #[trigger] s.rendered().run(readings.take(i)).ticks(
                readings[i],
            ),
        s.rendered().released(readings) == readings.len(),
        s.rendered().discarded(readings) == 0,
{
    law_backlog_releases(s.rendered(), readings);
}

} // verus!
