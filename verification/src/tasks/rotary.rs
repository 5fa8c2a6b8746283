//! The tasks that watch the two rotary encoders.
//!
//! Each watcher samples the two phase lines of its encoder once a millisecond
//! and feeds the samples to a `QuadratureTableMode` of the crate
//! `rotary_encoder_embedded`. That decoder adds up micro-rotations and reports
//! a direction once four of them in one direction are together. Verus does
//! not look into that crate: what this module says of its calls is taken on
//! trust, and each such function says so.

use vstd::prelude::*;
use rotary_encoder_embedded::quadrature::QuadratureTableMode;
use rotary_encoder_embedded::Direction;
use crate::hardware::{OutputLine, PinOp};
use crate::quadrature::{transition, GrayState, MicroRotation};
use crate::tasks::{plan_view, Action, ActionView, LEDSelect};

verus! {

/// How many micro-rotations in one direction make a reported step.
pub const STEP_THRESHOLD: u8 = 4;

/// The time between two samples of the phase lines, in microseconds.
pub const SAMPLE_PERIOD_MICROS: u64 = 1000;

#[verifier::external_type_specification]
#[verifier::external_body]
pub struct ExQuadratureTableMode(QuadratureTableMode);

/// What the decoder reports for one sample.
#[derive(Copy, Clone, Debug, PartialEq, Eq, Structural)]
pub enum Rotation {
    Clockwise,
    Anticlockwise,
    /// The running count has not reached the threshold.
    Still,
}

/// What a table decoder remembers: the two line levels of the last sample, as
/// a number from 0 to 3, and the running count of micro-rotations.
pub struct TableState {
    pub phase: int,
    pub count: int,
}

/// The memory of a table decoder.
pub uninterp spec fn table_state(m: QuadratureTableMode) -> TableState;

/// The threshold that a table decoder was made with.
pub uninterp spec fn table_threshold(m: QuadratureTableMode) -> int;

/// The two line levels as a number: `dt` is bit 0 and `clk` is bit 1.
pub open spec fn line_bits(dt: bool, clk: bool) -> int {
    (if dt { 1int } else { 0int }) + (if clk { 2int } else { 0int })
}

/// The decoder's table: +1 for a clockwise micro-rotation from phase `prev`
/// to phase `curr`, -1 for one the other way, 0 for anything else.
pub open spec fn table_delta(prev: int, curr: int) -> int {
    seq![0int, 1, -1, 0, -1, 0, 0, 1, 1, 0, 0, -1, 0, -1, 1, 0][prev * 4 + curr]
}

/// The decoder's memory after a sample with the line levels `curr`.
pub open spec fn table_next(s: TableState, threshold: int, curr: int) -> TableState {
    let sum = s.count + table_delta(s.phase, curr);
    TableState { phase: curr, count: if sum >= threshold || -sum >= threshold { 0 } else { sum } }
}

/// What the decoder reports for a sample with the line levels `curr`.
pub open spec fn table_report(s: TableState, threshold: int, curr: int) -> Rotation {
    let sum = s.count + table_delta(s.phase, curr);
    if sum >= threshold || -sum >= threshold {
        if sum > 0 { Rotation::Clockwise } else { Rotation::Anticlockwise }
    } else {
        Rotation::Still
    }
}

/// `QuadratureTableMode::new`: a decoder with the given threshold that
/// remembers phase 0 and has counted nothing.
#[verifier::external_body]
fn table_new(threshold: u8) -> (m: QuadratureTableMode)
    ensures
        table_state(m) == (TableState { phase: 0, count: 0 }),
        table_threshold(m) == threshold,
{
    QuadratureTableMode::new(threshold)
}

/// `QuadratureTableMode::update`: looks the step from the remembered phase to
/// the sampled one up in the table, adds it to the count, and remembers the
/// sampled phase. Once the count is as far from 0 as the threshold, the
/// count's sign is reported as a direction and the count starts again at 0.
/// The count is kept in eight bits, so the call is made only where the sum
/// fits; there it does not panic.
#[verifier::external_body]
fn table_update(m: &mut QuadratureTableMode, dt: bool, clk: bool) -> (r: Rotation)
    requires
        0 <= table_state(*old(m)).phase < 4,
        -128 <= table_state(*old(m)).count + table_delta(
            table_state(*old(m)).phase,
            line_bits(dt, clk),
        ) < 128,
    ensures
        table_threshold(*final(m)) == table_threshold(*old(m)),
        table_state(*final(m)) == table_next(
            table_state(*old(m)),
            table_threshold(*old(m)),
            line_bits(dt, clk),
        ),
        r == table_report(table_state(*old(m)), table_threshold(*old(m)), line_bits(dt, clk)),
    no_unwind
{
    match m.update(dt, clk) {
        Direction::Clockwise => Rotation::Clockwise,
        Direction::Anticlockwise => Rotation::Anticlockwise,
        Direction::None => Rotation::Still,
    }
}

/// The phase that the line levels `bits` stand for, with line A on bit 1 and
/// line B on bit 0.
pub open spec fn phase_of_bits(bits: int) -> GrayState {
    if bits == 0 {
        GrayState::AB00
    } else if bits == 1 {
        GrayState::AB01
    } else if bits == 2 {
        GrayState::AB10
    } else {
        GrayState::AB11
    }
}

/// The number that a micro-rotation adds to the count.
pub open spec fn weight(r: MicroRotation) -> int {
    match r {
        MicroRotation::Clockwise => 1,
        MicroRotation::CounterClockwise => -1,
        MicroRotation::NoStep => 0,
    }
}

/// The decoder's table and this crate's own classification of a step agree
/// on every pair of phases.
pub proof fn lemma_table_is_transition(prev: int, curr: int)
    requires
        0 <= prev < 4,
        0 <= curr < 4,
    ensures
        table_delta(prev, curr) == weight(transition(phase_of_bits(prev), phase_of_bits(curr))),
        -1 <= table_delta(prev, curr) <= 1,
{
}

/// Which of the two encoders a watcher belongs to.
#[derive(Copy, Clone, Debug, PartialEq, Eq, Structural)]
pub enum Side {
    Left,
    Right,
}

impl Side {
    /// The LED that shows a clockwise step of this encoder.
    pub open spec fn clockwise_led(self) -> LEDSelect {
        match self {
            Side::Left => LEDSelect::YELLOW,
            Side::Right => LEDSelect::BLUE,
        }
    }

    /// The LED that shows an anticlockwise step of this encoder.
    pub open spec fn anticlockwise_led(self) -> LEDSelect {
        match self {
            Side::Left => LEDSelect::RED,
            Side::Right => LEDSelect::GREEN,
        }
    }
}

/// What a watcher does after a sample: for a reported step, the LED of that
/// direction comes on and the LED of the other direction goes off; without
/// one, the LEDs are left alone. Either way the watcher then waits for the
/// next sample, so that it never holds the processor.
pub open spec fn indicator_plan(side: Side, r: Rotation) -> Seq<ActionView> {
    let on = side.clockwise_led().output_line();
    let off = side.anticlockwise_led().output_line();
    let pause = ActionView::DelayMicros(SAMPLE_PERIOD_MICROS);
    match r {
        Rotation::Clockwise => seq![
            ActionView::Drive(on, PinOp::SetHigh),
            ActionView::Drive(off, PinOp::SetLow),
            pause,
        ],
        Rotation::Anticlockwise => seq![
            ActionView::Drive(off, PinOp::SetHigh),
            ActionView::Drive(on, PinOp::SetLow),
            pause,
        ],
        Rotation::Still => seq![pause],
    }
}

/// Whatever the decoder reported, the watcher's answer ends with the wait for
/// the next sample, and only a reported step touches a LED.
pub proof fn lemma_watcher_always_waits(side: Side, r: Rotation)
    ensures
        indicator_plan(side, r).len() >= 1,
        indicator_plan(side, r).last() == ActionView::DelayMicros(SAMPLE_PERIOD_MICROS),
        r == Rotation::Still <==> indicator_plan(side, r).len() == 1,
{
}

/// The actions of a watcher for what its decoder reported.
pub fn indicate(side: Side, r: Rotation) -> (plan: Vec<Action>)
    ensures
        plan_view(plan@) == indicator_plan(side, r),
{
    let (on, off) = match side {
        Side::Left => (OutputLine::YellowLed, OutputLine::RedLed),
        Side::Right => (OutputLine::BlueLed, OutputLine::GreenLed),
    };
    let mut plan: Vec<Action> = Vec::new();
    match r {
        Rotation::Clockwise => {
            plan.push(Action::Drive(on, PinOp::SetHigh));
            plan.push(Action::Drive(off, PinOp::SetLow));
        },
        Rotation::Anticlockwise => {
            plan.push(Action::Drive(off, PinOp::SetHigh));
            plan.push(Action::Drive(on, PinOp::SetLow));
        },
        Rotation::Still => {},
    }
    plan.push(Action::DelayMicros(SAMPLE_PERIOD_MICROS));
    assert(plan_view(plan@) =~= indicator_plan(side, r));
    plan
}

/// The watcher of one encoder: its decoder, and which encoder it is.
pub struct RotationWatcher {
    encoder: QuadratureTableMode,
    side: Side,
}

impl RotationWatcher {
    /// Which encoder the watcher belongs to.
    pub closed spec fn side(&self) -> Side {
        self.side
    }

    /// What the watcher's decoder remembers.
    pub closed spec fn state(&self) -> TableState {
        table_state(self.encoder)
    }

    /// The decoder has the threshold of four, remembers a phase, and its
    /// count is short of the threshold.
    #[verifier::type_invariant]
    closed spec fn wf(&self) -> bool {
        &&& table_threshold(self.encoder) == STEP_THRESHOLD
        &&& 0 <= self.state().phase < 4
        &&& -(STEP_THRESHOLD as int) < self.state().count < STEP_THRESHOLD
    }

    /// A watcher whose decoder has seen one sample with both lines at 0 and
    /// has counted nothing.
    pub fn new(side: Side) -> (w: Self)
        ensures
            w.side() == side,
            w.state() == (TableState { phase: 0, count: 0 }),
    {
        let mut encoder = table_new(STEP_THRESHOLD);
        let _baseline = table_update(&mut encoder, false, false);
        RotationWatcher { encoder, side }
    }

    /// Feeds one sample to the decoder and says what to do. `a_low` and
    /// `b_low` tell whether line A and line B were read low; the lines are
    /// pulled up, so low is the active level. Line B goes to the decoder's
    /// data input and line A to its clock input.
    pub fn sample(&mut self, a_low: bool, b_low: bool) -> (plan: Vec<Action>)
        ensures
            final(self).side() == old(self).side(),
            final(self).state() == table_next(
                old(self).state(),
                STEP_THRESHOLD as int,
                line_bits(b_low, a_low),
            ),
            plan_view(plan@) == indicator_plan(
                old(self).side(),
                table_report(old(self).state(), STEP_THRESHOLD as int, line_bits(b_low, a_low)),
            ),
    {
        proof {
            use_type_invariant(&*self);
            lemma_table_is_transition(self.state().phase, line_bits(b_low, a_low));
        }
        let r = table_update(&mut self.encoder, b_low, a_low);
        indicate(self.side, r)
    }
}

/// The watcher of the left encoder, whose steps show on the yellow and the
/// red LED.
pub fn left_rotary_rotation_watcher() -> (w: RotationWatcher)
    ensures
        w.side() == Side::Left,
        w.state() == (TableState { phase: 0, count: 0 }),
{
    RotationWatcher::new(Side::Left)
}

/// The watcher of the right encoder, whose steps show on the blue and the
/// green LED.
pub fn right_rotary_rotation_watcher() -> (w: RotationWatcher)
    ensures
        w.side() == Side::Right,
        w.state() == (TableState { phase: 0, count: 0 }),
{
    RotationWatcher::new(Side::Right)
}

} // verus!
