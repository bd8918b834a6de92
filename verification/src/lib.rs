//! Fixed-timestep pacing: elapsed time is accumulated and released as update
//! ticks of a fixed interval, with the remainder reported as a render fraction.
//!
//! - `timer`: [`FixedStep`], the timer with its starvation cap.
//! - `state`: [`TimerState`], the timer as a state machine over mathematical
//!   integers, by which the timer's methods are specified.
//! - `laws`: what is proved of that state machine.
//! - `frame_loop`: [`FrameLoop`], pacing by bursts of at most three updates
//!   per frame with an optional frame skip.
//! - `fraction`: [`Fraction`], the render fraction as an exact ratio.
//! - `clock`: the parts of `std::time` that the timers read.

pub mod clock;
pub mod fraction;
pub mod frame_loop;
pub mod laws;
pub mod state;
pub mod timer;

pub use fraction::Fraction;
pub use frame_loop::FrameLoop;
pub use frame_loop::FrameState;
pub use state::TimerState;
pub use timer::FixedStep;
