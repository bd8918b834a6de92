use fixedstep::FixedStep;
use fixedstep::FrameLoop;

/// Length in nanoseconds of one step at `hz` steps per second.
fn step_nanos(hz: f64) -> u128 {
    let seconds = 1.0 / hz;
    let whole: u64 = seconds as u64;
    let nanos: u32 = (seconds.fract() * 1_000_000_000.0) as u32;
    std::time::Duration::new(whole, nanos).as_nanos()
}

#[test]
fn test_legacy_macro() {
    let mut pacer = FrameLoop::start(step_nanos(60 as f64), true);
    let mut should_close = false;
    while !should_close {
        let updates: u32 = pacer.frame();
        for _ in 0..updates {
            should_close = true;
        }
        let fraction = pacer.render_delta();
        let delta = fraction.numerator as f64 / fraction.denominator as f64;
        println!("Render Delta: {:?}", delta);
    }
}

#[test]
fn test_new_timer() {
    let mut fixedstep = fixedstep::FixedStep::start(step_nanos(60.0));
    let mut break_timer = fixedstep::FixedStep::start(step_nanos(10.0)).unlimit();

    fixedstep.reset();
    loop {
        while fixedstep.update() {
            println!("Tick");
            // Do updating things
        }
        let _delta = fixedstep.render_delta();
        // Do rendering things

        if break_timer.update() {
            break;
        }
    }
}

#[test]
fn step_length_from_frequency() {
    assert_eq!(step_nanos(60.0), 16_666_666);
    assert_eq!(step_nanos(10.0), 100_000_000);
    assert_eq!(step_nanos(0.5), 2_000_000_000);
    let timer = FixedStep::start(step_nanos(60.0));
    assert_eq!(timer.update_interval(), 16_666_666);
    let seconds = timer.update_interval() as f64 / 1_000_000_000.0;
    assert!((seconds - 1.0 / 60.0).abs() < 1e-9);
}
