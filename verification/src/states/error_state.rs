//! The error mode: the device has stopped and says so.

use vstd::prelude::*;
use crate::hardware::{OutputLine, PinOp};
use crate::states::{Meowbox, State};
use crate::tasks::{plan_view, Action, ActionView};

verus! {

/// Half the period of the blinking that shows the error mode, in
/// milliseconds.
pub const ERROR_BLINK_MILLIS: u64 = 200;

/// What a tick does in the error mode: the red LED switches over, and the
/// task waits.
pub open spec fn error_plan() -> Seq<ActionView> {
    seq![
        ActionView::Drive(OutputLine::RedLed, PinOp::Toggle),
        ActionView::DelayMillis(ERROR_BLINK_MILLIS),
    ]
}

impl Meowbox {
    /// One tick of the error mode's handler. In the error mode the red LED
    /// switches over and the task waits; in any other mode the handler does
    /// nothing. The device stays as it is: the error mode is never left.
    pub(crate) fn tick_error_state(&mut self) -> (plan: Vec<Action>)
        ensures
            plan_view(plan@) == (if old(self).state is ErrorState {
                error_plan()
            } else {
                Seq::<ActionView>::empty()
            }),
            *final(self) == *old(self),
    {
        let mut plan: Vec<Action> = Vec::new();
        if let State::ErrorState(_) = self.state {
            plan.push(Action::Drive(OutputLine::RedLed, PinOp::Toggle));
            plan.push(Action::DelayMillis(ERROR_BLINK_MILLIS));
            assert(plan_view(plan@) =~= error_plan());
        } else {
            assert(plan_view(plan@) =~= Seq::<ActionView>::empty());
        }
        plan
    }
}

} // verus!
