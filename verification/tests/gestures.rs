use gestures::engines::{GestureEngine, SimpleGesture, SimpleGestureEngine};
use gestures::{Gain, Gestures, LedDriveCurrent, LedPulseLength};

const SCALE: i32 = 256;

fn make_driver(threshold: u8) -> Gestures<SimpleGestureEngine> {
    Gestures::new(SimpleGestureEngine::default(), threshold)
}

#[test]
fn position_balanced_is_zero() {
    assert_eq!(gestures::position(0, 0), 0);
    assert_eq!(gestures::position(128, 128), 0);
    assert_eq!(gestures::position(255, 255), 0);
    assert_eq!(gestures::position(1, 1), 0);
}

#[test]
fn position_antisymmetric() {
    for &(a, b) in &[(255u8, 0u8), (200, 100), (1, 0), (37, 200), (255, 254), (10, 250)] {
        assert_eq!(gestures::position(a, b), -gestures::position(b, a));
    }
}

#[test]
fn position_full_swing() {
    assert_eq!(gestures::position(255, 0), -255 * SCALE);
    assert_eq!(gestures::position(0, 255), 255 * SCALE);
}

#[test]
fn position_exact_values() {
    // One dark channel: the centered magnitude counts in full.
    // (510 - 1 - 0) * (1 - 0) * 256 / 1 = 130304.
    assert_eq!(gestures::position(1, 0), -130304);
    assert_eq!(gestures::position(0, 1), 130304);
    // Near balance the magnitude is damped: (510 - 2 - 1) * 1 * 256 / 2.
    assert_eq!(gestures::position(2, 1), -(507 * 256 / 2));
    // (510 - 255 - 128) * (255 - 128) * 256 / 255 = 16192 (truncated).
    assert_eq!(gestures::position(255, 128), -(127 * 127 * 256 / 255));
}

#[test]
fn fresh_finish_returns_no_gesture() {
    let mut engine = SimpleGestureEngine::default();
    assert_eq!(engine.finish(), None);
}

#[test]
fn double_finish_returns_no_gesture() {
    let mut engine = SimpleGestureEngine::default();
    engine.advance([255, 0, 128, 128]);
    engine.advance([0, 255, 128, 128]);
    assert_eq!(engine.finish(), Some(SimpleGesture::Down));
    // The displacement was consumed: a second finish sees nothing.
    assert_eq!(engine.finish(), None);
}

#[test]
fn engine_classifies_each_direction() {
    let mut engine = SimpleGestureEngine::default();
    engine.advance([0, 255, 128, 128]);
    engine.advance([255, 0, 128, 128]);
    assert_eq!(engine.finish(), Some(SimpleGesture::Up));

    engine.advance([255, 0, 128, 128]);
    engine.advance([0, 255, 128, 128]);
    assert_eq!(engine.finish(), Some(SimpleGesture::Down));

    let mut engine = SimpleGestureEngine::default();
    engine.advance([128, 128, 0, 255]);
    engine.advance([128, 128, 255, 0]);
    assert_eq!(engine.finish(), Some(SimpleGesture::Left));

    engine.advance([128, 128, 255, 0]);
    engine.advance([128, 128, 0, 255]);
    assert_eq!(engine.finish(), Some(SimpleGesture::Right));
}

#[test]
fn cycle_independent_of_prior_motion() {
    let mut seasoned = SimpleGestureEngine::default();
    // A first, strongly horizontal gesture, consumed and discarded.
    seasoned.advance([128, 128, 255, 0]);
    seasoned.advance([128, 128, 0, 255]);
    assert_eq!(seasoned.finish(), Some(SimpleGesture::Right));

    let mut fresh = SimpleGestureEngine::default();
    let cycle: [[u8; 4]; 3] = [[200, 10, 90, 90], [100, 110, 90, 90], [10, 200, 90, 90]];
    for sample in cycle {
        seasoned.advance(sample);
        fresh.advance(sample);
    }
    assert_eq!(seasoned.finish(), fresh.finish());
}

#[test]
fn scenario_vertical_gesture() {
    let mut driver = make_driver(50);
    let batch: [u8; 12] = [255, 0, 128, 128, 0, 255, 128, 128, 0, 0, 0, 0];
    assert!(driver.track(&batch));
    assert_eq!(driver.finish_gesture(), Some(SimpleGesture::Down));
}

#[test]
fn scenario_tie_yields_no_gesture() {
    let mut driver = make_driver(50);
    // Both axes accumulate the same nonzero displacement.
    let batch: [u8; 12] = [255, 0, 255, 0, 0, 255, 0, 255, 0, 0, 0, 0];
    assert!(driver.track(&batch));
    assert_eq!(driver.finish_gesture(), None);
}

#[test]
fn scenario_empty_batch() {
    let mut driver = make_driver(50);
    let batch: [u8; 0] = [];
    assert!(!driver.track(&batch));
}

#[test]
fn scenario_short_circuit_discards_tail() {
    let mut driver = make_driver(50);
    // Samples 1-2 are tracked, sample 3 ends the gesture, sample 4 is loud
    // again but was already drained: it must never reach the engine.
    let batch: [u8; 16] = [255, 0, 128, 128, 0, 255, 128, 128, 0, 0, 0, 0, 255, 0, 0, 0];
    assert!(driver.track(&batch));
    assert_eq!(driver.finish_gesture(), Some(SimpleGesture::Down));
    // A later call starts from a clean slate: the discarded fourth sample
    // does not resurface.
    let empty: [u8; 0] = [];
    assert!(!driver.track(&empty));
    assert_eq!(driver.finish_gesture(), None);
}

#[test]
fn tracking_spans_batches() {
    let mut driver = make_driver(50);
    assert!(!driver.track(&[255, 0, 128, 128]));
    assert!(!driver.track(&[0, 255, 128, 128]));
    assert!(driver.track(&[0, 0, 0, 0]));
    assert_eq!(driver.finish_gesture(), Some(SimpleGesture::Down));
}

#[test]
fn threshold_is_strict() {
    // A sample exactly at the threshold is quiet on every channel and ends
    // the motion at once; one unit above keeps it alive.
    let mut driver = make_driver(50);
    assert!(driver.track(&[50, 50, 50, 50]));
    assert_eq!(driver.finish_gesture(), None);
    assert!(!driver.track(&[51, 50, 50, 50]));
}

#[test]
fn led_drive_codes_match_datasheet() {
    let table: [(LedDriveCurrent, u8, u8); 10] = [
        (LedDriveCurrent::D12_5, 3, 0),
        (LedDriveCurrent::D18_75, 3, 1),
        (LedDriveCurrent::D25, 2, 0),
        (LedDriveCurrent::D37_5, 2, 1),
        (LedDriveCurrent::D50, 1, 0),
        (LedDriveCurrent::D75, 1, 1),
        (LedDriveCurrent::D100, 0, 0),
        (LedDriveCurrent::D150, 0, 1),
        (LedDriveCurrent::D200, 0, 2),
        (LedDriveCurrent::D300, 0, 3),
    ];
    for (level, drive, boost) in table {
        assert_eq!(level.drive(), drive);
        assert_eq!(level.boost(), boost);
    }
}

#[test]
fn led_drive_encoding_is_pure() {
    for level in [LedDriveCurrent::D12_5, LedDriveCurrent::D75, LedDriveCurrent::D300] {
        assert_eq!(level.drive(), level.drive());
        assert_eq!(level.boost(), level.boost());
    }
}

#[test]
fn pulse_and_gain_codes() {
    assert_eq!(LedPulseLength::P4.code(), 0);
    assert_eq!(LedPulseLength::P8.code(), 1);
    assert_eq!(LedPulseLength::P16.code(), 2);
    assert_eq!(LedPulseLength::P32.code(), 3);
    assert_eq!(Gain::X1.code(), 0);
    assert_eq!(Gain::X2.code(), 1);
    assert_eq!(Gain::X4.code(), 2);
    assert_eq!(Gain::X8.code(), 3);
}
