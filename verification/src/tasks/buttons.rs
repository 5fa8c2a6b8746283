//! What the tasks of the two buttons and of the two rotary switches do when
//! their input fires.
//!
//! All four follow one template: the task's LED goes dark, one command goes to
//! the mailbox of the task that owns the output in question, the LED stays
//! dark for a fixed time, and comes back on. The buzzer is driven by its own
//! task alone, so no button ever holds the buzzer's slot.

use vstd::prelude::*;
use crate::hardware::{OutputLine, PinOp};
use crate::tasks::{default_rotation, plan_view, Action, ActionView, BuzzerSequence};
use crate::tasks::LEDRotationParams;

verus! {

/// How long a rotary switch keeps its LED dark, in milliseconds.
pub const SWITCH_HOLD_MILLIS: u64 = 200;

/// The template: LED off, the command, the wait, LED on.
pub open spec fn press_plan(led: OutputLine, command: ActionView, hold: u64) -> Seq<ActionView> {
    seq![
        ActionView::Drive(led, PinOp::SetLow),
        command,
        ActionView::DelayMillis(hold),
        ActionView::Drive(led, PinOp::SetHigh),
    ]
}

/// How many commands a list of actions puts into a mailbox.
pub open spec fn publications(plan: Seq<ActionView>) -> nat
    decreases plan.len(),
{
    if plan.len() == 0 {
        0
    } else {
        publications(plan.drop_last()) + match plan.last() {
            ActionView::SignalBuzzer(_) => 1nat,
            ActionView::SignalLedRotation(_) => 1nat,
            _ => 0nat,
        }
    }
}

/// A press publishes exactly one command, whatever the LED and the time, as
/// long as what it is given to publish is a command.
pub proof fn lemma_one_publication(led: OutputLine, command: ActionView, hold: u64)
    requires
        command is SignalBuzzer || command is SignalLedRotation,
    ensures
        publications(press_plan(led, command, hold)) == 1,
{
    let p = press_plan(led, command, hold);
    let p3 = p.drop_last();
    let p2 = p3.drop_last();
    let p1 = p2.drop_last();
    let p0 = p1.drop_last();
    assert(p0.len() == 0);
    assert(publications(p0) == 0);
    assert(p1.last() == p[0]);
    assert(publications(p1) == 0);
    assert(p2.last() == p[1]);
    assert(publications(p2) == 1);
    assert(p3.last() == p[2]);
    assert(publications(p3) == 1);
    assert(p.last() == p[3]);
}

/// Builds the template round a command.
fn press(led: OutputLine, command: Action, hold: u64) -> (plan: Vec<Action>)
    ensures
        plan_view(plan@) == press_plan(led, command@, hold),
{
    let mut plan: Vec<Action> = Vec::new();
    plan.push(Action::Drive(led, PinOp::SetLow));
    plan.push(command);
    plan.push(Action::DelayMillis(hold));
    plan.push(Action::Drive(led, PinOp::SetHigh));
    assert(plan_view(plan@) =~= press_plan(led, command@, hold));
    plan
}

/// The left button was pressed: its LED `led` goes dark while the buzzer
/// task plays the pattern that switches every 10 ms for 200 ms.
pub fn left_button_event(led: OutputLine) -> (plan: Vec<Action>)
    ensures
        plan_view(plan@) == press_plan(
            led,
            ActionView::SignalBuzzer(BuzzerSequence::Intermittent10ms200ms),
            BuzzerSequence::Intermittent10ms200ms.spec_duration_millis(),
        ),
        publications(plan_view(plan@)) == 1,
{
    let pattern = BuzzerSequence::Intermittent10ms200ms;
    let hold = pattern.duration_millis();
    proof {
        lemma_one_publication(led, ActionView::SignalBuzzer(pattern), hold);
    }
    press(led, Action::SignalBuzzer(pattern), hold)
}

/// The right button was pressed: its LED `led` goes dark while the buzzer
/// task plays the plain tone of 200 ms.
pub fn right_button_event(led: OutputLine) -> (plan: Vec<Action>)
    ensures
        plan_view(plan@) == press_plan(
            led,
            ActionView::SignalBuzzer(BuzzerSequence::SimpleTone200ms),
            BuzzerSequence::SimpleTone200ms.spec_duration_millis(),
        ),
        publications(plan_view(plan@)) == 1,
{
    let pattern = BuzzerSequence::SimpleTone200ms;
    let hold = pattern.duration_millis();
    proof {
        lemma_one_publication(led, ActionView::SignalBuzzer(pattern), hold);
    }
    press(led, Action::SignalBuzzer(pattern), hold)
}

/// The left rotary switch was pressed: its LED `led` goes dark for 200 ms and
/// the LED task is asked for the default run round the ring.
pub fn rotary_switch_left_event(led: OutputLine) -> (plan: Vec<Action>)
    ensures
        plan_view(plan@) == press_plan(
            led,
            ActionView::SignalLedRotation(default_rotation()),
            SWITCH_HOLD_MILLIS,
        ),
        publications(plan_view(plan@)) == 1,
{
    let params = LEDRotationParams::default();
    proof {
        lemma_one_publication(led, ActionView::SignalLedRotation(params@), SWITCH_HOLD_MILLIS);
    }
    press(led, Action::SignalLedRotation(params), SWITCH_HOLD_MILLIS)
}

/// The right rotary switch was pressed: its LED `led` goes dark for 200 ms
/// and the buzzer task is asked for the plain tone of 200 ms.
pub fn rotary_switch_right_event(led: OutputLine) -> (plan: Vec<Action>)
    ensures
        plan_view(plan@) == press_plan(
            led,
            ActionView::SignalBuzzer(BuzzerSequence::SimpleTone200ms),
            SWITCH_HOLD_MILLIS,
        ),
        publications(plan_view(plan@)) == 1,
{
    let pattern = BuzzerSequence::SimpleTone200ms;
    proof {
        lemma_one_publication(led, ActionView::SignalBuzzer(pattern), SWITCH_HOLD_MILLIS);
    }
    press(led, Action::SignalBuzzer(pattern), SWITCH_HOLD_MILLIS)
}

} // verus!
