//! The flow-field mode.
//!
//! The animation itself is arithmetic on fractions and belongs to the program
//! round this crate. The mode asks for the animation to be prepared when it is
//! entered; the rest is stage keeping.

use vstd::prelude::*;
use crate::states::{FlowFieldState, Meowbox, Stage, State};
use crate::tasks::{plan_view, Action, ActionView};

verus! {

/// What a tick does that finds the flow field at `stage`: only its setup
/// acts, and asks for particles and field to be prepared.
pub open spec fn flow_field_plan(stage: Stage) -> Seq<ActionView> {
    match stage {
        Stage::Setup => seq![ActionView::PrepareFlowField],
        _ => seq![],
    }
}

impl Meowbox {
    /// The device after a tick that found the flow field at `stage`, in the
    /// variation `field`.
    pub open spec fn after_flow_field(self, stage: Stage, field: FlowFieldState) -> Meowbox {
        match stage {
            Stage::Setup => Meowbox {
                state: State::FlowField(Stage::Execution, field),
                next_state: self.next_state,
                needs_to_shutdown: self.needs_to_shutdown,
            },
            Stage::Execution => self,
            Stage::Shutdown => self.handed_over(),
        }
    }

    /// Enters the flow field and goes on to its `Execution` stage.
    pub(crate) fn setup_flow_field(&mut self, field: FlowFieldState) -> (plan: Vec<Action>)
        ensures
            plan_view(plan@) == seq![ActionView::PrepareFlowField],
            *final(self) == old(self).after_flow_field(Stage::Setup, field),
    {
        let mut plan: Vec<Action> = Vec::new();
        plan.push(Action::PrepareFlowField);
        assert(plan_view(plan@) =~= seq![ActionView::PrepareFlowField]);
        self.state = State::FlowField(Stage::Execution, field);
        plan
    }

    /// The flow field at rest.
    pub(crate) fn execute_flow_field(&mut self)
        ensures
            *final(self) == *old(self),
    {
    }

    /// Leaves the flow field for the mode named as next.
    pub(crate) fn shutdown_flow_field(&mut self)
        ensures
            *final(self) == old(self).handed_over(),
    {
        self.hand_over();
    }

    /// One tick of the flow field's handler. In the flow-field mode the
    /// handler of the mode's stage runs; in any other mode nothing happens.
    pub(crate) fn tick_flow_field(&mut self) -> (plan: Vec<Action>)
        ensures
            plan_view(plan@) == (match old(self).state {
                State::FlowField(stage, _) => flow_field_plan(stage),
                _ => Seq::<ActionView>::empty(),
            }),
            *final(self) == (match old(self).state {
                State::FlowField(stage, field) => old(self).after_flow_field(stage, field),
                _ => *old(self),
            }),
    {
        if let State::FlowField(stage, field) = self.state {
            match stage {
                Stage::Setup => self.setup_flow_field(field),
                Stage::Execution => {
                    self.execute_flow_field();
                    let plan: Vec<Action> = Vec::new();
                    assert(plan_view(plan@) =~= flow_field_plan(stage));
                    plan
                },
                Stage::Shutdown => {
                    self.shutdown_flow_field();
                    let plan: Vec<Action> = Vec::new();
                    assert(plan_view(plan@) =~= flow_field_plan(stage));
                    plan
                },
            }
        } else {
            let plan: Vec<Action> = Vec::new();
            assert(plan_view(plan@) =~= Seq::<ActionView>::empty());
            plan
        }
    }
}

} // verus!
