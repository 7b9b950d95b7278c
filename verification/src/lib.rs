//! Gesture recognition for a four-channel optical proximity sensor.
//!
//! The sensor reports bursts of 4-byte samples, one unsigned magnitude per
//! photodiode channel (up, down, left, right). This crate turns those samples
//! into recognized directional gestures:
//!
//! - [`position`] converts two opposing channel magnitudes into one signed
//!   axis position, in exact fixed-point integer ticks.
//! - [`engines::GestureEngine`] is the motion-accumulator interface; the
//!   shipped [`engines::SimpleGestureEngine`] classifies finished motions
//!   into up, down, left or right.
//! - [`Gestures`] drives an engine over drained sample batches and detects
//!   the end of a gesture by a magnitude threshold.
//!
//! Talking to the sensor itself (register reads and writes, draining its
//! FIFO) is the caller's concern: this crate only consumes the bytes the
//! caller drained and tells it when to re-arm the device.

pub mod engines;

mod gestures;

mod position;

pub use engines::{
    lemma_first_sample_baseline, lemma_second_sample_negated_change, GestureEngine,
};
pub use gestures::{
    batch_ends, boost_code_spec, drive_code_spec, gain_code_spec, lemma_tracked_run,
    pulse_code_spec, sample_at, sample_exceeds, tracked_count, tracked_samples, Gain, Gestures,
    GesturesSetup, LedDriveCurrent, LedPulseLength,
};
pub use position::{
    position, position_spec, abs_int, lemma_position_antisymmetric, lemma_position_balanced_zero,
    lemma_position_full_swing, lemma_position_in_bounds, FULL_MAGNITUDE, POSITION_BOUND,
    POSITION_SCALE,
};
