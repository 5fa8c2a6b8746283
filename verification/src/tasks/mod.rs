//! What each task of the device does when its input fires, as lists of
//! actions for the caller to perform.

pub mod buttons;
pub mod buzzer;
pub mod leds;
pub mod mono_display;
pub mod rotary;

use vstd::prelude::*;
use crate::bounded::LedPattern;
use crate::hardware::{OutputLine, PinOp};
use crate::tasks::mono_display::{CommandView, MonoDisplayCommand};

verus! {

/// One of the five status LEDs, in the order of the LED ring.
#[allow(non_camel_case_types)]
#[derive(Copy, Clone, Debug, PartialEq, Eq, Structural)]
pub enum LEDSelect {
    RED,
    GREEN,
    BLUE,
    YELLOW,
    WHITE,
}

impl LEDSelect {
    /// The place of the LED in the ring, from 0.
    pub open spec fn ring_index(self) -> int {
        match self {
            LEDSelect::RED => 0,
            LEDSelect::GREEN => 1,
            LEDSelect::BLUE => 2,
            LEDSelect::YELLOW => 3,
            LEDSelect::WHITE => 4,
        }
    }

    /// The output line that drives the LED.
    pub open spec fn output_line(self) -> OutputLine {
        match self {
            LEDSelect::RED => OutputLine::RedLed,
            LEDSelect::GREEN => OutputLine::GreenLed,
            LEDSelect::BLUE => OutputLine::BlueLed,
            LEDSelect::YELLOW => OutputLine::YellowLed,
            LEDSelect::WHITE => OutputLine::WhiteLed,
        }
    }

    /// The place of the LED in the ring, from 0.
    pub fn index(self) -> (i: usize)
        ensures
            i == self.ring_index(),
            i < 5,
    {
        match self {
            LEDSelect::RED => 0,
            LEDSelect::GREEN => 1,
            LEDSelect::BLUE => 2,
            LEDSelect::YELLOW => 3,
            LEDSelect::WHITE => 4,
        }
    }

    /// The output line that drives the LED.
    pub fn line(self) -> (l: OutputLine)
        ensures
            l == self.output_line(),
    {
        match self {
            LEDSelect::RED => OutputLine::RedLed,
            LEDSelect::GREEN => OutputLine::GreenLed,
            LEDSelect::BLUE => OutputLine::BlueLed,
            LEDSelect::YELLOW => OutputLine::YellowLed,
            LEDSelect::WHITE => OutputLine::WhiteLed,
        }
    }
}

/// The tone patterns that the buzzer task knows.
#[derive(Copy, Clone, Debug, PartialEq, Eq, Structural)]
pub enum BuzzerSequence {
    /// The buzzer on for 200 ms.
    SimpleTone200ms,
    /// The buzzer switched every 10 ms, for 200 ms.
    Intermittent10ms200ms,
    /// The buzzer switched every 5 ms, for 2000 ms.
    Intermittent5ms2000ms,
}

/// The parameters of a run of light round the LED ring: a pattern of up to 20
/// LEDs, how often to go through it, and how long one LED stays on.
pub struct LEDRotationParams {
    /// The order in which the LEDs light up.
    pub selection: LedPattern,
    /// How many times to go through the selection.
    pub cycles: u64,
    /// How long one LED stays on, in milliseconds.
    pub interval: u64,
}

/// The parameters of a run, with the selection as a sequence.
pub struct RotationView {
    pub selection: Seq<LEDSelect>,
    pub cycles: u64,
    pub interval: u64,
}

impl View for LEDRotationParams {
    type V = RotationView;

    open spec fn view(&self) -> RotationView {
        RotationView { selection: self.selection@, cycles: self.cycles, interval: self.interval }
    }
}

/// The five LEDs in the order of the ring.
pub open spec fn led_ring() -> Seq<LEDSelect> {
    seq![LEDSelect::RED, LEDSelect::GREEN, LEDSelect::BLUE, LEDSelect::YELLOW, LEDSelect::WHITE]
}

/// The run that a press of the left rotary switch asks for: five times
/// round the ring, 80 ms for each LED.
pub open spec fn default_rotation() -> RotationView {
    RotationView { selection: led_ring(), cycles: 5, interval: 80 }
}

impl Default for LEDRotationParams {
    fn default() -> (p: Self)
        ensures
            p@ == default_rotation(),
    {
        let mut selection = LedPattern::new();
        let r0 = selection.push(LEDSelect::RED);
        let r1 = selection.push(LEDSelect::GREEN);
        let r2 = selection.push(LEDSelect::BLUE);
        let r3 = selection.push(LEDSelect::YELLOW);
        let r4 = selection.push(LEDSelect::WHITE);
        assert(selection@ =~= led_ring());
        LEDRotationParams { selection, cycles: 5, interval: 80 }
    }
}

/// One thing for the caller to do. A task's answer to an event is a list of
/// these, to be performed first to last.
pub enum Action {
    /// Acquire the slot of the line, apply the operation to the output behind
    /// it, and release the slot at once.
    Drive(OutputLine, PinOp),
    /// Suspend for this many milliseconds.
    DelayMillis(u64),
    /// Suspend for this many microseconds.
    DelayMicros(u64),
    /// Put the command into the display task's channel, waiting while the
    /// channel is full.
    Send(MonoDisplayCommand),
    /// Put the tone pattern into the buzzer task's mailbox, over whatever
    /// waits there.
    SignalBuzzer(BuzzerSequence),
    /// Put the run into the LED task's mailbox, over whatever waits there.
    SignalLedRotation(LEDRotationParams),
    /// Place the particles and fill the flow field for the animation.
    PrepareFlowField,
}

/// An action, with what it carries seen as plain values.
pub enum ActionView {
    Drive(OutputLine, PinOp),
    DelayMillis(u64),
    DelayMicros(u64),
    Send(CommandView),
    SignalBuzzer(BuzzerSequence),
    SignalLedRotation(RotationView),
    PrepareFlowField,
}

impl View for Action {
    type V = ActionView;

    open spec fn view(&self) -> ActionView {
        match self {
            Action::Drive(line, op) => ActionView::Drive(*line, *op),
            Action::DelayMillis(ms) => ActionView::DelayMillis(*ms),
            Action::DelayMicros(us) => ActionView::DelayMicros(*us),
            Action::Send(cmd) => ActionView::Send(cmd@),
            Action::SignalBuzzer(seq) => ActionView::SignalBuzzer(*seq),
            Action::SignalLedRotation(params) => ActionView::SignalLedRotation(params@),
            Action::PrepareFlowField => ActionView::PrepareFlowField,
        }
    }
}

/// A list of actions, each seen as plain values.
pub open spec fn plan_view(plan: Seq<Action>) -> Seq<ActionView> {
    plan.map_values(|a: Action| a@)
}

/// Adding an action to a list adds its view to the list's view.
pub proof fn lemma_plan_view_push(plan: Seq<Action>, a: Action)
    ensures
        plan_view(plan.push(a)) == plan_view(plan).push(a@),
{
    assert(plan_view(plan.push(a)) =~= plan_view(plan).push(a@));
}

} // verus!
