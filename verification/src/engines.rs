//! Gesture engines: motion accumulators that classify a finished motion.
//!
//! A [`GestureEngine`] consumes one 4-channel sample at a time and, when the
//! caller declares the motion finished, reports a recognized gesture. The
//! engine's abstract state is the history of samples fed to it since the
//! last finish: [`GestureEngine::advance`] appends a sample to that history
//! and [`GestureEngine::finish`] classifies the whole history and empties it,
//! so consecutive gestures are fully independent of one another.
//!
//! The shipped implementation, [`SimpleGestureEngine`], recognizes plain
//! upward, downward, leftward and rightward motions. Other classifiers (say,
//! diagonal or rotational vocabularies) can implement the same trait and be
//! driven by [`crate::Gestures`] unchanged.

use vstd::prelude::*;

use crate::position::{abs_int, lemma_position_in_bounds, position, position_spec, POSITION_BOUND};

verus! {

/// Gesture engine.
///
/// A type that tracks a motion and recognizes gestures when the motion is
/// finished. The abstract state is the sequence of samples advanced since
/// the last finish; what gesture a given sample history yields is the
/// implementation's [`classify`](GestureEngine::classify) function.
pub trait GestureEngine: Sized {
    /// Recognized gesture.
    type Gesture;

    /// Internal consistency of the engine's state.
    spec fn inv(&self) -> bool;

    /// The samples advanced since the last finish, oldest first, each a
    /// sequence of the four channel magnitudes (up, down, left, right).
    spec fn history(&self) -> Seq<Seq<u8>>;

    /// The gesture that a finished motion with sample history `history`
    /// is classified as, if any.
    spec fn classify(history: Seq<Seq<u8>>) -> Option<Self::Gesture>;

    /// Continues current gesture with next `dataset`.
    fn advance(&mut self, dataset: [u8; 4])
        requires
            old(self).inv(),
        ensures
            final(self).inv(),
            final(self).history() == old(self).history().push(dataset@),
    ;

    /// Finishes current gesture and returns a gesture result if it was
    /// recognized.
    fn finish(&mut self) -> (gesture: Option<Self::Gesture>)
        requires
            old(self).inv(),
        ensures
            final(self).inv(),
            final(self).history() == Seq::<Seq<u8>>::empty(),
            gesture == Self::classify(old(self).history()),
    ;
}

/// A gesture recognized by [`SimpleGestureEngine`].
#[derive(Debug, Clone, Copy, PartialEq, Eq, Structural)]
pub enum SimpleGesture {
    /// Upward motion.
    Up,
    /// Downward motion.
    Down,
    /// Leftward motion.
    Left,
    /// Rightward motion.
    Right,
}

/// Vertical position of a sample, from its up and down channels.
pub open spec fn sample_y(dataset: Seq<u8>) -> int {
    position_spec(dataset[0], dataset[1])
}

/// Horizontal position of a sample, from its left and right channels.
pub open spec fn sample_x(dataset: Seq<u8>) -> int {
    position_spec(dataset[2], dataset[3])
}

/// Addition on `i64` values that clamps at the type's bounds instead of
/// wrapping.
pub open spec fn saturating_add_i64(a: int, b: int) -> int {
    if a + b > i64::MAX as int {
        i64::MAX as int
    } else if a + b < i64::MIN as int {
        i64::MIN as int
    } else {
        a + b
    }
}

/// Accumulated horizontal displacement of a sample history: the sum, in
/// arrival order, of the negated horizontal position changes, saturated at
/// the `i64` bounds. The first sample only establishes the baseline.
pub open spec fn accumulated_x(history: Seq<Seq<u8>>) -> int
    decreases history.len(),
{
    if history.len() <= 1 {
        0
    } else {
        saturating_add_i64(
            accumulated_x(history.drop_last()),
            sample_x(history[history.len() - 2]) - sample_x(history.last()),
        )
    }
}

/// Accumulated vertical displacement of a sample history, the vertical
/// counterpart of [`accumulated_x`].
pub open spec fn accumulated_y(history: Seq<Seq<u8>>) -> int
    decreases history.len(),
{
    if history.len() <= 1 {
        0
    } else {
        saturating_add_i64(
            accumulated_y(history.drop_last()),
            sample_y(history[history.len() - 2]) - sample_y(history.last()),
        )
    }
}

/// The gesture that [`SimpleGestureEngine`] recognizes for a finished
/// sample history: the axis with the strictly larger accumulated
/// displacement decides the direction, and an exact tie (including the
/// empty history) yields no gesture.
pub open spec fn simple_classify(history: Seq<Seq<u8>>) -> Option<SimpleGesture> {
    let move_x = accumulated_x(history);
    let move_y = accumulated_y(history);
    if abs_int(move_y) > abs_int(move_x) {
        if move_y > 0 {
            Some(SimpleGesture::Up)
        } else {
            Some(SimpleGesture::Down)
        }
    } else if abs_int(move_x) > abs_int(move_y) {
        if move_x > 0 {
            Some(SimpleGesture::Left)
        } else {
            Some(SimpleGesture::Right)
        }
    } else {
        None
    }
}

/// A gesture engine that tracks simple upward, downward, leftward,
/// rightward gestures.
///
/// Positions are accumulated in fixed-point ticks (see
/// [`crate::POSITION_SCALE`]); the accumulators saturate at the `i64`
/// bounds rather than wrap.
pub struct SimpleGestureEngine {
    active: bool,
    prev_x: i32,
    prev_y: i32,
    move_x: i64,
    move_y: i64,
    history: Ghost<Seq<Seq<u8>>>,
}

impl SimpleGestureEngine {
    /// The concrete fields agree with the abstract sample history.
    pub closed spec fn wf(&self) -> bool {
        &&& self.active == (self.history@.len() > 0)
        &&& self.move_x == accumulated_x(self.history@)
        &&& self.move_y == accumulated_y(self.history@)
        &&& self.history@.len() > 0 ==> {
            &&& self.prev_x == sample_x(self.history@.last())
            &&& self.prev_y == sample_y(self.history@.last())
        }
    }
}

/// Law: accumulated displacements always fit in an `i64`, so the
/// accumulators cannot overflow however long the motion lasts.
pub proof fn lemma_accumulated_in_range(history: Seq<Seq<u8>>)
    ensures
        i64::MIN <= accumulated_x(history) <= i64::MAX,
        i64::MIN <= accumulated_y(history) <= i64::MAX,
{
}

/// Law: the first sample of a motion only establishes the baseline; it
/// contributes no displacement of its own.
pub proof fn lemma_first_sample_baseline(first: Seq<u8>)
    ensures
        accumulated_x(seq![first]) == 0,
        accumulated_y(seq![first]) == 0,
{
}

/// Law: each sample after the first contributes the negated position
/// change against the previous sample, so a decreasing position counts as
/// positive accumulated movement on that axis.
pub proof fn lemma_second_sample_negated_change(first: Seq<u8>, second: Seq<u8>)
    ensures
        accumulated_x(seq![first, second]) == sample_x(first) - sample_x(second),
        accumulated_y(seq![first, second]) == sample_y(first) - sample_y(second),
{
    let pair = seq![first, second];
    assert(pair.drop_last() =~= seq![first]);
    assert(accumulated_x(seq![first]) == 0);
    assert(accumulated_y(seq![first]) == 0);
    assert(pair[0] == first);
    assert(pair.last() == second);
    lemma_position_in_bounds(first[2], first[3]);
    lemma_position_in_bounds(second[2], second[3]);
    lemma_position_in_bounds(first[0], first[1]);
    lemma_position_in_bounds(second[0], second[1]);
    assert(-2 * POSITION_BOUND <= sample_x(first) - sample_x(second) <= 2 * POSITION_BOUND);
    assert(-2 * POSITION_BOUND <= sample_y(first) - sample_y(second) <= 2 * POSITION_BOUND);
}

/// Law: a finished motion with no samples at all yields no gesture.
pub proof fn lemma_empty_history_no_gesture()
    ensures
        simple_classify(Seq::<Seq<u8>>::empty()) == None::<SimpleGesture>,
{
}

fn saturating_add(a: i64, b: i64) -> (sum: i64)
    ensures
        sum == saturating_add_i64(a as int, b as int),
{
    if b >= 0 {
        if a <= i64::MAX - b {
            a + b
        } else {
            i64::MAX
        }
    } else {
        if a >= i64::MIN - b {
            a + b
        } else {
            i64::MIN
        }
    }
}

fn abs_greater(a: i64, b: i64) -> (greater: bool)
    ensures
        greater == (abs_int(a as int) > abs_int(b as int)),
{
    let wide_a: i128 = a as i128;
    let wide_b: i128 = b as i128;
    let abs_a: i128 = if wide_a < 0 {
        -wide_a
    } else {
        wide_a
    };
    let abs_b: i128 = if wide_b < 0 {
        -wide_b
    } else {
        wide_b
    };
    abs_a > abs_b
}

impl GestureEngine for SimpleGestureEngine {
    type Gesture = SimpleGesture;

    closed spec fn inv(&self) -> bool {
        self.wf()
    }

    closed spec fn history(&self) -> Seq<Seq<u8>> {
        self.history@
    }

    open spec fn classify(history: Seq<Seq<u8>>) -> Option<SimpleGesture> {
        simple_classify(history)
    }

    fn advance(&mut self, dataset: [u8; 4]) {
        let y = position(dataset[0], dataset[1]);
        let x = position(dataset[2], dataset[3]);
        if self.active {
            self.move_x = saturating_add(self.move_x, (self.prev_x as i64) - (x as i64));
            self.move_y = saturating_add(self.move_y, (self.prev_y as i64) - (y as i64));
        } else {
            self.active = true;
            self.move_x = 0;
            self.move_y = 0;
        }
        self.prev_x = x;
        self.prev_y = y;
        let ghost pushed = self.history@.push(dataset@);
        proof {
            self.history@ = pushed;
            assert(pushed.drop_last() =~= old(self).history@);
        }
    }

    fn finish(&mut self) -> (gesture: Option<SimpleGesture>) {
        let gesture = if abs_greater(self.move_y, self.move_x) {
            if self.move_y > 0 {
                Some(SimpleGesture::Up)
            } else {
                Some(SimpleGesture::Down)
            }
        } else if abs_greater(self.move_x, self.move_y) {
            if self.move_x > 0 {
                Some(SimpleGesture::Left)
            } else {
                Some(SimpleGesture::Right)
            }
        } else {
            None
        };
        self.active = false;
        self.move_x = 0;
        self.move_y = 0;
        proof {
            self.history@ = Seq::<Seq<u8>>::empty();
        }
        gesture
    }
}

impl Default for SimpleGestureEngine {
    /// A fresh engine: inactive, with an empty sample history.
    fn default() -> (engine: SimpleGestureEngine)
        ensures
            engine.inv(),
            engine.history() == Seq::<Seq<u8>>::empty(),
    {
        SimpleGestureEngine {
            active: false,
            prev_x: 0,
            prev_y: 0,
            move_x: 0,
            move_y: 0,
            history: Ghost(Seq::empty()),
        }
    }
}

} // verus!
