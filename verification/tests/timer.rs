use fixedstep::FixedStep;
use fixedstep::Fraction;

const MILLI: u128 = 1_000_000;
const SIXTIETH: u128 = 16_666_666;

#[test]
fn start_gives_a_fresh_timer() {
    let timer = FixedStep::start(SIXTIETH);
    assert_eq!(timer.update_interval(), SIXTIETH);
    assert_eq!(timer.last_time(), 0);
    assert_eq!(timer.accumulator(), 0);
    assert_eq!(timer.update_counter(), 0);
    assert_eq!(timer.update_limit(), 3);
}

#[test]
fn limit_changes_the_limit_alone() {
    let mut timer = FixedStep::start(10);
    assert!(timer.update_at(25));
    let timer = timer.limit(7);
    assert_eq!(timer.update_limit(), 7);
    assert_eq!(timer.update_interval(), 10);
    assert_eq!(timer.last_time(), 25);
    assert_eq!(timer.accumulator(), 15);
    assert_eq!(timer.update_counter(), 1);
}

#[test]
fn unlimit_raises_the_limit_to_the_maximum() {
    let timer = FixedStep::start(10).limit(2).unlimit();
    assert_eq!(timer.update_limit(), u32::MAX);
    assert_eq!(timer.update_interval(), 10);
    assert_eq!(timer.accumulator(), 0);
    assert_eq!(timer.update_counter(), 0);
}

#[test]
fn update_before_one_step_releases_nothing() {
    let mut timer = FixedStep::start(SIXTIETH);
    assert!(!timer.update_at(5 * MILLI));
    assert_eq!(timer.accumulator(), 5 * MILLI);
    assert_eq!(timer.last_time(), 5 * MILLI);
    assert_eq!(timer.update_counter(), 0);
    assert!(!timer.update_at(16 * MILLI));
    assert_eq!(timer.accumulator(), 16 * MILLI);
    assert!(timer.update_at(17 * MILLI));
    assert_eq!(timer.accumulator(), 17 * MILLI - SIXTIETH);
    assert_eq!(timer.update_counter(), 1);
}

#[test]
fn update_at_exactly_one_step_releases_it() {
    let mut timer = FixedStep::start(SIXTIETH);
    assert!(!timer.update_at(SIXTIETH - 1));
    assert!(timer.update_at(SIXTIETH));
    assert_eq!(timer.accumulator(), 0);
    assert!(!timer.update_at(SIXTIETH));
}

#[test]
fn sixty_hertz_fifty_millis_default_limit() {
    let mut timer = FixedStep::start(SIXTIETH);
    assert!(timer.update_at(50 * MILLI));
    assert!(timer.update_at(50 * MILLI));
    assert!(timer.update_at(50 * MILLI));
    assert_eq!(timer.update_counter(), 3);
    assert!(!timer.update_at(50 * MILLI));
    assert_eq!(timer.accumulator(), 2);
    assert_eq!(timer.update_counter(), 3);
}

#[test]
fn sixty_hertz_fifty_millis_unlimited() {
    let mut timer = FixedStep::start(SIXTIETH).unlimit();
    assert!(timer.update_at(50 * MILLI));
    assert!(timer.update_at(50 * MILLI));
    assert!(timer.update_at(50 * MILLI));
    assert!(!timer.update_at(50 * MILLI));
    assert_eq!(timer.accumulator(), 2);
    assert!(timer.update_at(50 * MILLI + SIXTIETH));
    assert_eq!(timer.accumulator(), 2);
    assert_eq!(timer.update_counter(), 4);
}

#[test]
fn ten_hertz_unlimited_one_tick_per_hundred_millis() {
    let mut timer = FixedStep::start(100 * MILLI).unlimit();
    let mut batch: u128 = 1;
    while batch <= 5 {
        assert!(timer.update_at(batch * 100 * MILLI));
        assert!(!timer.update_at(batch * 100 * MILLI));
        assert_eq!(timer.accumulator(), 0);
        batch += 1;
    }
    assert_eq!(timer.update_counter(), 5);
}

#[test]
fn starvation_discards_the_whole_backlog() {
    let mut timer = FixedStep::start(SIXTIETH);
    let now: u128 = 4 * SIXTIETH + 5;
    assert!(timer.update_at(now));
    assert!(timer.update_at(now));
    assert!(timer.update_at(now));
    assert_eq!(timer.accumulator(), SIXTIETH + 5);
    assert!(!timer.update_at(now));
    assert_eq!(timer.accumulator(), 0);
    assert_eq!(timer.update_counter(), 0);
    assert_eq!(timer.last_time(), now);
    assert!(!timer.update_at(now));
}

#[test]
fn starvation_cap_follows_the_limit() {
    let mut limit: u32 = 0;
    while limit <= 6 {
        let mut timer = FixedStep::start(10).limit(limit);
        let now: u128 = (limit as u128 + 1) * 10;
        let mut released: u32 = 0;
        while timer.update_at(now) {
            released += 1;
        }
        assert_eq!(released, limit);
        assert_eq!(timer.accumulator(), 0);
        assert_eq!(timer.update_counter(), 0);
        limit += 1;
    }
}

#[test]
fn a_long_stall_is_capped_not_caught_up() {
    let mut timer = FixedStep::start(SIXTIETH).limit(5);
    let now: u128 = 3_600_000 * MILLI;
    let mut released: u32 = 0;
    while timer.update_at(now) {
        released += 1;
    }
    assert_eq!(released, 5);
    assert_eq!(timer.accumulator(), 0);
}

#[test]
fn lowering_the_limit_below_the_count_starves_the_next_step() {
    let mut timer = FixedStep::start(10);
    assert!(timer.update_at(40));
    assert!(timer.update_at(40));
    let mut timer = timer.limit(1);
    assert_eq!(timer.update_counter(), 2);
    assert!(!timer.update_at(40));
    assert_eq!(timer.accumulator(), 0);
    assert_eq!(timer.update_counter(), 0);
}

#[test]
fn no_time_is_lost_without_starvation() {
    let mut timer = FixedStep::start(SIXTIETH).unlimit();
    let readings: [u128; 8] = [
        3 * MILLI,
        20 * MILLI,
        20 * MILLI,
        55 * MILLI,
        55 * MILLI,
        55 * MILLI,
        140 * MILLI,
        141 * MILLI,
    ];
    let mut released: u128 = 0;
    for now in readings {
        if timer.update_at(now) {
            released += 1;
        }
        assert_eq!(released * SIXTIETH + timer.accumulator(), now);
    }
    while timer.update_at(141 * MILLI) {
        released += 1;
    }
    assert_eq!(released, 8);
    assert_eq!(timer.accumulator(), 141 * MILLI - 8 * SIXTIETH);
    assert!(timer.accumulator() < SIXTIETH);
}

#[test]
fn starvation_loses_exactly_the_discarded_backlog() {
    let mut timer = FixedStep::start(10);
    let mut released: u128 = 0;
    while timer.update_at(57) {
        released += 1;
    }
    assert_eq!(released, 3);
    assert_eq!(timer.accumulator(), 0);
    assert!(!timer.update_at(63));
    assert_eq!(timer.accumulator(), 6);
}

#[test]
fn render_delta_is_the_pending_share_of_a_step() {
    let mut timer = FixedStep::start(10);
    assert!(timer.update_at(14));
    assert!(!timer.update_at(14));
    let delta = timer.render_delta();
    assert_eq!(delta, Fraction { numerator: 4, denominator: 10 });
    assert_eq!(delta.numerator as f64 / delta.denominator as f64, 0.4);
    assert_eq!(timer.accumulator(), 4);
    assert_eq!(timer.last_time(), 14);
}

#[test]
fn render_delta_stays_below_one_once_drained() {
    let mut timer = FixedStep::start(SIXTIETH);
    let readings: [u128; 6] =
        [MILLI, 16 * MILLI, 17 * MILLI, 40 * MILLI, 400 * MILLI, 401 * MILLI];
    for now in readings {
        while timer.update_at(now) {}
        let delta = timer.render_delta();
        assert_eq!(delta.denominator, SIXTIETH);
        assert!(delta.numerator < delta.denominator);
        let shown = delta.numerator as f64 / delta.denominator as f64;
        assert!(0.0 <= shown && shown < 1.0);
    }
}

#[test]
fn render_delta_rearms_the_limit() {
    let mut timer = FixedStep::start(10);
    assert!(timer.update_at(30));
    assert!(timer.update_at(30));
    assert!(timer.update_at(30));
    assert!(!timer.update_at(30));
    assert_eq!(timer.update_counter(), 3);
    let delta = timer.render_delta();
    assert_eq!(delta, Fraction { numerator: 0, denominator: 10 });
    assert_eq!(timer.update_counter(), 0);
    assert!(timer.update_at(60));
    assert!(timer.update_at(60));
    assert!(timer.update_at(60));
    assert!(!timer.update_at(60));
    assert_eq!(timer.accumulator(), 0);
    assert_eq!(timer.update_counter(), 3);
}

#[test]
fn without_render_delta_the_count_carries_over() {
    let mut timer = FixedStep::start(10);
    assert!(timer.update_at(30));
    assert!(timer.update_at(30));
    assert!(timer.update_at(30));
    assert!(!timer.update_at(30));
    assert!(!timer.update_at(65));
    assert_eq!(timer.accumulator(), 0);
    assert_eq!(timer.update_counter(), 0);
}

#[test]
fn reset_clears_the_backlog() {
    let mut timer = FixedStep::start(SIXTIETH).limit(9);
    assert!(timer.update_at(5_000 * MILLI));
    assert!(timer.update_at(5_000 * MILLI));
    timer.reset_at(5_001 * MILLI);
    assert_eq!(timer.accumulator(), 0);
    assert_eq!(timer.update_counter(), 0);
    assert_eq!(timer.last_time(), 5_001 * MILLI);
    assert_eq!(timer.update_interval(), SIXTIETH);
    assert_eq!(timer.update_limit(), 9);
    assert!(!timer.update_at(5_001 * MILLI));
    assert!(!timer.update_at(5_001 * MILLI + SIXTIETH - 1));
    assert!(timer.update_at(5_001 * MILLI + SIXTIETH));
    assert_eq!(timer.accumulator(), 0);
}

#[test]
fn reset_twice_is_reset_once() {
    let mut once = FixedStep::start(10);
    let mut twice = FixedStep::start(10);
    assert!(once.update_at(1_000));
    assert!(twice.update_at(1_000));
    once.reset_at(1_200);
    twice.reset_at(1_200);
    twice.reset_at(1_200);
    assert_eq!(once.last_time(), twice.last_time());
    assert_eq!(once.accumulator(), twice.accumulator());
    assert_eq!(once.update_counter(), twice.update_counter());
    assert_eq!(once.update_limit(), twice.update_limit());
    assert_eq!(once.update_interval(), twice.update_interval());
}

#[test]
fn a_reset_timer_behaves_as_a_fresh_one() {
    let mut used = FixedStep::start(10);
    while used.update_at(1_000) {}
    used.reset_at(0);
    let mut fresh = FixedStep::start(10);
    let readings: [u128; 7] = [3, 10, 10, 45, 45, 45, 45];
    for now in readings {
        assert_eq!(used.update_at(now), fresh.update_at(now));
        assert_eq!(used.accumulator(), fresh.accumulator());
        assert_eq!(used.update_counter(), fresh.update_counter());
        assert_eq!(used.last_time(), fresh.last_time());
    }
}

#[test]
fn a_stale_reading_adds_no_time() {
    let mut timer = FixedStep::start(10);
    assert!(!timer.update_at(8));
    assert!(!timer.update_at(3));
    assert_eq!(timer.last_time(), 8);
    assert_eq!(timer.accumulator(), 8);
    assert!(timer.update_at(10));
    assert_eq!(timer.accumulator(), 0);
}

#[test]
fn the_largest_reading_is_accounted_without_overflow() {
    let mut timer = FixedStep::start(u128::MAX).limit(1);
    assert!(!timer.update_at(u128::MAX - 1));
    assert_eq!(timer.accumulator(), u128::MAX - 1);
    assert!(timer.update_at(u128::MAX));
    assert_eq!(timer.accumulator(), 0);
    assert_eq!(timer.last_time(), u128::MAX);
}

#[test]
fn the_clock_releases_nothing_before_a_step_has_passed() {
    let hour: u128 = 3_600_000 * MILLI;
    let mut timer = FixedStep::start(hour);
    assert!(!timer.update());
    assert!(timer.accumulator() < hour);
    assert_eq!(timer.accumulator(), timer.last_time());
    timer.reset();
    assert_eq!(timer.accumulator(), 0);
    assert_eq!(timer.update_counter(), 0);
    assert!(timer.last_time() < hour);
    assert!(!timer.update());
}

#[test]
fn the_clock_moves_forward() {
    let mut timer = FixedStep::start(MILLI).unlimit();
    let mut released: u32 = 0;
    while released < 3 {
        let before: u128 = timer.last_time();
        if timer.update() {
            released += 1;
        }
        assert!(timer.last_time() >= before);
    }
    assert!(timer.last_time() >= 3 * MILLI);
    assert_eq!(timer.update_counter(), 3);
}
