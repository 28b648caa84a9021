//! Control logic for a small board with a three-color indicator and a
//! two-direction motor.
//!
//! The indicator owns three digital output lines and guarantees that at
//! most one of them is high at a time.  The motor drive owns one PWM
//! peripheral with two channels (forward and backward) and guarantees
//! that at most one channel carries a nonzero duty.  On top of the two
//! sits a fixed control sequence: a boot indication, one motor cycle,
//! and a permanent halt.
//!
//! Pin levels, duty counts and the peripheral's enable state are modelled
//! as plain values here; the board binding that turns them into register
//! writes, and the timer that realises the delays, live outside this
//! crate.

pub mod fan;
pub mod light;
pub mod sequence;
