//! The sampling protocol driver and the device configuration encoders.
//!
//! [`Gestures`] owns a [`GestureEngine`] and the gesture threshold. The
//! caller talks to the sensor (it queries the FIFO level, drains the FIFO
//! bytes, and writes the gesture-mode register) and hands the drained bytes
//! to [`Gestures::track`]; the driver feeds them to the engine in arrival
//! order and reports whether the batch contained the end of a gesture. On
//! end of gesture the caller re-arms the device and then collects the
//! classification from [`Gestures::finish_gesture`].
//!
//! A single scalar threshold governs both the start and the end of
//! tracking: a sample with any channel magnitude strictly above the
//! threshold belongs to the motion, and a sample with all four channels at
//! or below it ends the motion. The sensor's own entry threshold register is
//! programmed separately at initialization; the driver keeps only the exit
//! threshold, which its per-sample check uses.
//!
//! [`LedDriveCurrent`], [`LedPulseLength`] and [`Gain`] encode the
//! human-meaningful device settings into the raw register field codes the
//! sensor expects; the mappings are fixed by the sensor's datasheet.

use vstd::prelude::*;

use crate::engines::GestureEngine;

verus! {

/// Gestures setup.
///
/// The full device configuration handed over once at initialization. The
/// caller translates it into the sensor's register writes; the driver
/// itself retains only the engine and the exit threshold.
pub struct GesturesSetup<E: GestureEngine> {
    /// A gesture engine. See [`crate::engines`] for available options.
    pub engine: E,
    /// Offset compensation for UP photo-diode in gesture mode.
    pub goffset_up: u8,
    /// Offset compensation for DOWN photo-diode in gesture mode.
    pub goffset_down: u8,
    /// Offset compensation for LEFT photo-diode in gesture mode.
    pub goffset_left: u8,
    /// Offset compensation for RIGHT photo-diode in gesture mode.
    pub goffset_right: u8,
    /// Offset compensation for UP and RIGHT photo-diodes in proximity mode.
    pub poffset_ur: u8,
    /// Offset compensation for DOWN and LEFT photo-diodes in proximity mode.
    pub poffset_dl: u8,
    /// LED drive current.
    pub led_drive: LedDriveCurrent,
    /// LED pulse length.
    pub led_pulse: LedPulseLength,
    /// Gain control.
    pub gain: Gain,
    /// Gesture entry threshold, programmed into the sensor.
    pub entry_threshold: u8,
    /// Gesture exit threshold, used by the driver's per-sample check.
    pub exit_threshold: u8,
}

/// Gestures driver.
///
/// Owns a gesture engine and the exit threshold, and processes drained
/// FIFO batches; see the module documentation for the protocol.
pub struct Gestures<E: GestureEngine> {
    engine: E,
    exit_threshold: u8,
}

/// LED drive current.
#[derive(Clone, Copy)]
pub enum LedDriveCurrent {
    /// LED drive current - 12.5 mA, LED boost - 100%
    D12_5,
    /// LED drive current - 18.75 mA, LED boost - 150%
    D18_75,
    /// LED drive current - 25 mA, LED boost - 100%
    D25,
    /// LED drive current - 37.5 mA, LED boost - 150%
    D37_5,
    /// LED drive current - 50 mA, LED boost - 100%
    D50,
    /// LED drive current - 75 mA, LED boost - 150%
    D75,
    /// LED drive current - 100 mA, LED boost - 100%
    D100,
    /// LED drive current - 150 mA, LED boost - 150%
    D150,
    /// LED drive current - 200 mA, LED boost - 200%
    D200,
    /// LED drive current - 300 mA, LED boost - 300%
    D300,
}

/// LED pulse length.
#[derive(Clone, Copy)]
pub enum LedPulseLength {
    /// 4 µs
    P4,
    /// 8 µs
    P8,
    /// 16 µs
    P16,
    /// 32 µs
    P32,
}

/// Gain.
#[derive(Clone, Copy)]
pub enum Gain {
    /// 1×
    X1,
    /// 2×
    X2,
    /// 4×
    X4,
    /// 8×
    X8,
}

/// The 2-bit drive-strength register code for a drive current level.
pub open spec fn drive_code_spec(level: LedDriveCurrent) -> u8 {
    match level {
        LedDriveCurrent::D100 | LedDriveCurrent::D150 | LedDriveCurrent::D200
            | LedDriveCurrent::D300 => 0,
        LedDriveCurrent::D50 | LedDriveCurrent::D75 => 1,
        LedDriveCurrent::D25 | LedDriveCurrent::D37_5 => 2,
        LedDriveCurrent::D12_5 | LedDriveCurrent::D18_75 => 3,
    }
}

/// The 2-bit boost register code for a drive current level.
pub open spec fn boost_code_spec(level: LedDriveCurrent) -> u8 {
    match level {
        LedDriveCurrent::D100 | LedDriveCurrent::D50 | LedDriveCurrent::D25
            | LedDriveCurrent::D12_5 => 0,
        LedDriveCurrent::D150 | LedDriveCurrent::D75 | LedDriveCurrent::D37_5
            | LedDriveCurrent::D18_75 => 1,
        LedDriveCurrent::D200 => 2,
        LedDriveCurrent::D300 => 3,
    }
}

impl LedDriveCurrent {
    /// The drive-strength field value for this level, a pure function of
    /// the level alone, fixed by the sensor's datasheet.
    pub fn drive(self) -> (code: u8)
        ensures
            code == drive_code_spec(self),
            code <= 3,
    {
        match self {
            Self::D100 | Self::D150 | Self::D200 | Self::D300 => 0,
            Self::D50 | Self::D75 => 1,
            Self::D25 | Self::D37_5 => 2,
            Self::D12_5 | Self::D18_75 => 3,
        }
    }

    /// The boost field value for this level, a pure function of the level
    /// alone, fixed by the sensor's datasheet.
    pub fn boost(self) -> (code: u8)
        ensures
            code == boost_code_spec(self),
            code <= 3,
    {
        match self {
            Self::D100 | Self::D50 | Self::D25 | Self::D12_5 => 0,
            Self::D150 | Self::D75 | Self::D37_5 | Self::D18_75 => 1,
            Self::D200 => 2,
            Self::D300 => 3,
        }
    }
}

/// The 2-bit pulse-length register code.
pub open spec fn pulse_code_spec(length: LedPulseLength) -> u8 {
    match length {
        LedPulseLength::P4 => 0,
        LedPulseLength::P8 => 1,
        LedPulseLength::P16 => 2,
        LedPulseLength::P32 => 3,
    }
}

impl LedPulseLength {
    /// The pulse-length field value, a pure function of the length alone.
    pub fn code(self) -> (code: u8)
        ensures
            code == pulse_code_spec(self),
            code <= 3,
    {
        match self {
            Self::P4 => 0,
            Self::P8 => 1,
            Self::P16 => 2,
            Self::P32 => 3,
        }
    }
}

/// The 2-bit gain register code.
pub open spec fn gain_code_spec(gain: Gain) -> u8 {
    match gain {
        Gain::X1 => 0,
        Gain::X2 => 1,
        Gain::X4 => 2,
        Gain::X8 => 3,
    }
}

impl Gain {
    /// The gain field value, a pure function of the gain alone.
    pub fn code(self) -> (code: u8)
        ensures
            code == gain_code_spec(self),
            code <= 3,
    {
        match self {
            Self::X1 => 0,
            Self::X2 => 1,
            Self::X4 => 2,
            Self::X8 => 3,
        }
    }
}

/// The `k`-th 4-byte sample of a drained FIFO batch, as the sequence of
/// its four channel magnitudes (up, down, left, right).
pub open spec fn sample_at(bytes: Seq<u8>, k: int) -> Seq<u8> {
    bytes.subrange(4 * k, 4 * k + 4)
}

/// Whether any channel magnitude of a sample strictly exceeds the
/// threshold, which makes the sample part of an ongoing motion.
pub open spec fn sample_exceeds(dataset: Seq<u8>, threshold: u8) -> bool {
    dataset[0] > threshold || dataset[1] > threshold || dataset[2] > threshold
        || dataset[3] > threshold
}

/// How many leading samples of a batch exceed the threshold: exactly these
/// samples are fed to the engine. Equals the index of the first
/// all-quiet sample, or the whole batch where there is none.
pub open spec fn tracked_count(bytes: Seq<u8>, threshold: u8) -> int
    decreases bytes.len(),
{
    if bytes.len() < 4 {
        0
    } else if sample_exceeds(sample_at(bytes, 0), threshold) {
        1 + tracked_count(bytes.skip(4), threshold)
    } else {
        0
    }
}

/// Whether a batch contains an end-of-gesture sample: one, before any
/// truncated tail, whose four channels are all at or below the threshold.
pub open spec fn batch_ends(bytes: Seq<u8>, threshold: u8) -> bool
    decreases bytes.len(),
{
    if bytes.len() < 4 {
        false
    } else if sample_exceeds(sample_at(bytes, 0), threshold) {
        batch_ends(bytes.skip(4), threshold)
    } else {
        true
    }
}

/// The samples of a batch that are fed to the engine, in arrival order:
/// the leading run of samples that exceed the threshold. Everything after
/// the first quiet sample is discarded.
pub open spec fn tracked_samples(bytes: Seq<u8>, threshold: u8) -> Seq<Seq<u8>> {
    Seq::new(tracked_count(bytes, threshold) as nat, |k: int| sample_at(bytes, k))
}

/// Characterizes [`tracked_count`] and [`batch_ends`] without recursion:
/// every tracked sample exceeds the threshold, the batch ends exactly when
/// the tracked run stops short of the whole batch, and in that case the
/// sample right after the run is quiet on all four channels.
pub proof fn lemma_tracked_run(bytes: Seq<u8>, threshold: u8)
    requires
        bytes.len() % 4 == 0,
    ensures
        0 <= tracked_count(bytes, threshold) <= bytes.len() / 4,
        forall|k: int|
            0 <= k < tracked_count(bytes, threshold) ==> sample_exceeds(
                #[trigger] sample_at(bytes, k),
                threshold,
            ),
        batch_ends(bytes, threshold) == (tracked_count(bytes, threshold) < bytes.len() / 4),
        batch_ends(bytes, threshold) ==> !sample_exceeds(
            sample_at(bytes, tracked_count(bytes, threshold)),
            threshold,
        ),
    decreases bytes.len(),
{
    if bytes.len() < 4 {
    } else {
        let rest = bytes.skip(4);
        assert(rest.len() % 4 == 0);
        lemma_tracked_run(rest, threshold);
        assert(rest.len() == 4 * (rest.len() / 4));
        assert(bytes.len() / 4 == rest.len() / 4 + 1);
        assert forall|k: int|
            0 <= k && 4 * k + 4 <= rest.len() implies #[trigger] sample_at(rest, k) =~= sample_at(
            bytes,
            k + 1,
        ) by {
            assert(forall|j: int| 0 <= j < rest.len() ==> rest[j] == bytes[j + 4]);
        }
        if sample_exceeds(sample_at(bytes, 0), threshold) {
            let tc = tracked_count(bytes, threshold);
            assert(tc == 1 + tracked_count(rest, threshold));
            assert forall|k: int| 0 <= k < tc implies sample_exceeds(
                #[trigger] sample_at(bytes, k),
                threshold,
            ) by {
                if k >= 1 {
                    assert(sample_at(rest, k - 1) =~= sample_at(bytes, k));
                }
            }
            if batch_ends(bytes, threshold) {
                assert(sample_at(rest, tracked_count(rest, threshold)) =~= sample_at(bytes, tc));
            }
        }
    }
}

impl<E: GestureEngine> Gestures<E> {
    /// The driver's state is consistent: its engine's invariant holds.
    pub closed spec fn wf(&self) -> bool {
        self.engine.inv()
    }

    /// The sample history of the owned engine.
    pub closed spec fn engine_history(&self) -> Seq<Seq<u8>> {
        self.engine.history()
    }

    /// The configured exit threshold.
    pub closed spec fn threshold(&self) -> u8 {
        self.exit_threshold
    }

    /// Sets up a new driver around `engine`, ending motions at
    /// `exit_threshold`. The engine is taken over as it is, history and
    /// all; the caller performs the device's register configuration.
    pub fn new(engine: E, exit_threshold: u8) -> (gestures: Gestures<E>)
        requires
            engine.inv(),
        ensures
            gestures.wf(),
            gestures.engine_history() == engine.history(),
            gestures.threshold() == exit_threshold,
    {
        Gestures { engine, exit_threshold }
    }

    /// Feeds one drained FIFO batch to the engine and reports whether the
    /// batch contained the end of the gesture.
    ///
    /// Samples are processed strictly in arrival order. Each sample with a
    /// channel above the threshold is advanced into the engine; the first
    /// sample with all channels at or below it ends the motion: the driver
    /// stops and returns `true`, and the remaining samples of the batch are
    /// discarded for good — they were already consumed from the hardware
    /// FIFO and are deliberately not reprocessed. On `true` the caller must
    /// re-arm the device and then call [`Gestures::finish_gesture`]; the
    /// engine's state is already safe either way.
    pub fn track(&mut self, bytes: &[u8]) -> (ended: bool)
        requires
            old(self).wf(),
            bytes@.len() % 4 == 0,
        ensures
            final(self).wf(),
            final(self).threshold() == old(self).threshold(),
            ended == batch_ends(bytes@, old(self).threshold()),
            final(self).engine_history() == old(self).engine_history() + tracked_samples(
                bytes@,
                old(self).threshold(),
            ),
    {
        let ghost pre = *old(self);
        let count = bytes.len() / 4;
        proof {
            assert(4 * (bytes@.len() / 4) <= bytes@.len());
            assert(pre.engine_history() + Seq::new(0, |i: int| sample_at(bytes@, i))
                =~= pre.engine_history());
        }
        let mut k: usize = 0;
        while k < count
            invariant
                pre == *old(self),
                pre.wf(),
                bytes@.len() % 4 == 0,
                bytes@.len() <= usize::MAX,
                count == bytes@.len() / 4,
                4 * count <= bytes@.len(),
                0 <= k <= count,
                self.wf(),
                self.exit_threshold == pre.exit_threshold,
                forall|i: int|
                    0 <= i < k ==> sample_exceeds(
                        #[trigger] sample_at(bytes@, i),
                        pre.exit_threshold,
                    ),
                self.engine_history() == pre.engine_history() + Seq::new(
                    k as nat,
                    |i: int| sample_at(bytes@, i),
                ),
            decreases count - k,
        {
            let base = 4 * k;
            let dataset: [u8; 4] = [bytes[base], bytes[base + 1], bytes[base + 2], bytes[base
                + 3]];
            proof {
                assert(dataset@ =~= sample_at(bytes@, k as int));
            }
            let quiet = dataset[0] <= self.exit_threshold && dataset[1] <= self.exit_threshold
                && dataset[2] <= self.exit_threshold && dataset[3] <= self.exit_threshold;
            if quiet {
                proof {
                    lemma_tracked_run(bytes@, pre.exit_threshold);
                    assert(tracked_count(bytes@, pre.exit_threshold) == k as int);
                    assert(tracked_samples(bytes@, pre.exit_threshold) =~= Seq::new(
                        k as nat,
                        |i: int| sample_at(bytes@, i),
                    ));
                }
                return true;
            }
            self.engine.advance(dataset);
            proof {
                assert(self.engine_history() =~= pre.engine_history() + Seq::new(
                    (k + 1) as nat,
                    |i: int| sample_at(bytes@, i),
                ));
            }
            k = k + 1;
        }
        proof {
            lemma_tracked_run(bytes@, pre.exit_threshold);
            assert(tracked_count(bytes@, pre.exit_threshold) == count as int);
            assert(tracked_samples(bytes@, pre.exit_threshold) =~= Seq::new(
                count as nat,
                |i: int| sample_at(bytes@, i),
            ));
        }
        false
    }

    /// Finishes the current motion: the engine classifies everything
    /// advanced since the last finish and starts over with an empty
    /// history.
    pub fn finish_gesture(&mut self) -> (gesture: Option<E::Gesture>)
        requires
            old(self).wf(),
        ensures
            final(self).wf(),
            final(self).threshold() == old(self).threshold(),
            final(self).engine_history() == Seq::<Seq<u8>>::empty(),
            gesture == E::classify(old(self).engine_history()),
    {
        self.engine.finish()
    }
}

} // verus!
