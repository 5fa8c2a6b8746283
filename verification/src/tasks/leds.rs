//! The status LEDs: switching all of them off, and the run of light round
//! the ring.

use vstd::prelude::*;
use crate::hardware::PinOp;
use crate::tasks::{led_ring, plan_view, Action, ActionView, LEDRotationParams, LEDSelect};
use crate::tasks::RotationView;

verus! {

/// Every LED of the ring driven low, in the order of the ring.
pub open spec fn all_off_plan() -> Seq<ActionView> {
    Seq::new(5, |i: int| ActionView::Drive(led_ring()[i].output_line(), PinOp::SetLow))
}

/// The actions that switch every status LED off.
pub fn all_leds_off() -> (plan: Vec<Action>)
    ensures
        plan_view(plan@) == all_off_plan(),
{
    let mut plan: Vec<Action> = Vec::new();
    plan.push(Action::Drive(LEDSelect::RED.line(), PinOp::SetLow));
    plan.push(Action::Drive(LEDSelect::GREEN.line(), PinOp::SetLow));
    plan.push(Action::Drive(LEDSelect::BLUE.line(), PinOp::SetLow));
    plan.push(Action::Drive(LEDSelect::YELLOW.line(), PinOp::SetLow));
    plan.push(Action::Drive(LEDSelect::WHITE.line(), PinOp::SetLow));
    assert(plan_view(plan@) =~= all_off_plan());
    plan
}

/// How many LEDs a run lights, one after the other.
pub open spec fn rotation_steps(p: RotationView) -> nat {
    (p.cycles * p.selection.len()) as nat
}

/// Step `k` of a run, counted from 0: the LED whose turn it is comes on; half
/// an interval later the LED of the step before goes off, so that the two
/// overlap; another half interval later the step is over.
pub open spec fn rotation_step(p: RotationView, k: nat) -> Seq<ActionView> {
    let n = p.selection.len() as int;
    let led = p.selection[k as int % n];
    let half = (p.interval / 2) as u64;
    if k == 0 {
        seq![
            ActionView::Drive(led.output_line(), PinOp::SetHigh),
            ActionView::DelayMillis(half),
            ActionView::DelayMillis(half),
        ]
    } else {
        seq![
            ActionView::Drive(led.output_line(), PinOp::SetHigh),
            ActionView::DelayMillis(half),
            ActionView::Drive(p.selection[(k - 1) % n].output_line(), PinOp::SetLow),
            ActionView::DelayMillis(half),
        ]
    }
}

/// What the LED task does at its turn number `turn` of a run, counted from
/// 0: first all LEDs go off, then come the steps, then all LEDs go off
/// again, and then the run is over.
pub open spec fn rotation_turn(p: RotationView, turn: nat) -> Option<Seq<ActionView>> {
    let steps = rotation_steps(p);
    if turn == 0 || turn == steps + 1 {
        Some(all_off_plan())
    } else if turn <= steps {
        Some(rotation_step(p, (turn - 1) as nat))
    } else {
        None
    }
}

/// A run of light round the ring, handed out one turn at a time.
pub struct LedRotation {
    params: LEDRotationParams,
    turn: u128,
}

impl LedRotation {
    /// The parameters of the run.
    pub closed spec fn params(&self) -> RotationView {
        self.params@
    }

    /// The number of the turn that is handed out next.
    pub closed spec fn turn(&self) -> nat {
        self.turn as nat
    }

    /// The next turn of the run, or nothing when the run is over. Once it is
    /// over it stays so.
    pub fn next_turn(&mut self) -> (plan: Option<Vec<Action>>)
        ensures
            final(self).params() == old(self).params(),
            plan is Some <==> rotation_turn(old(self).params(), old(self).turn()) is Some,
            plan matches Some(actions) ==> Some(plan_view(actions@)) == rotation_turn(
                old(self).params(),
                old(self).turn(),
            ),
            plan is Some ==> final(self).turn() == old(self).turn() + 1,
            plan is None ==> final(self).turn() == old(self).turn(),
    {
        let ghost p = self.params@;
        let len = self.params.selection.len();
        assert(p.cycles * len <= 0xffff_ffff_ffff_ffff * 20) by (nonlinear_arith)
            requires
                0 <= p.cycles <= 0xffff_ffff_ffff_ffff,
                0 <= len <= 20,
        ;
        let steps: u128 = (self.params.cycles as u128) * (len as u128);
        if self.turn == 0 || self.turn == steps + 1 {
            self.turn = self.turn + 1;
            return Some(all_leds_off());
        }
        if self.turn > steps {
            return None;
        }
        let k: u128 = self.turn - 1;
        assert(len > 0) by (nonlinear_arith)
            requires
                steps == p.cycles * len,
                steps > 0,
                len >= 0,
        ;
        let led = self.params.selection.get((k % (len as u128)) as usize).unwrap();
        let half = self.params.interval / 2;
        let mut actions: Vec<Action> = Vec::new();
        actions.push(Action::Drive(led.line(), PinOp::SetHigh));
        actions.push(Action::DelayMillis(half));
        if k > 0 {
            let before = self.params.selection.get(((k - 1) % (len as u128)) as usize).unwrap();
            actions.push(Action::Drive(before.line(), PinOp::SetLow));
        }
        actions.push(Action::DelayMillis(half));
        assert(plan_view(actions@) =~= rotation_step(p, k as nat));
        self.turn = self.turn + 1;
        Some(actions)
    }
}

/// Starts the run that the LED task took from its mailbox.
pub fn led_rotation(params: LEDRotationParams) -> (run: LedRotation)
    ensures
        run.params() == params@,
        run.turn() == 0,
{
    LedRotation { params, turn: 0 }
}

} // verus!
