//! The light-ring mode.

use vstd::prelude::*;
use crate::states::{LightRingState, Meowbox, Stage, State};
use crate::tasks::leds::{all_leds_off, all_off_plan};
use crate::tasks::{plan_view, Action, ActionView};

verus! {

/// What a tick does that finds the light ring at `stage`: only its shutdown
/// acts, and switches all status LEDs off.
pub open spec fn light_ring_plan(stage: Stage) -> Seq<ActionView> {
    match stage {
        Stage::Shutdown => all_off_plan(),
        _ => seq![],
    }
}

impl Meowbox {
    /// The device after a tick that found the light ring at `stage`, showing
    /// `ring`.
    pub open spec fn after_light_ring(self, stage: Stage, ring: LightRingState) -> Meowbox {
        match stage {
            Stage::Setup => Meowbox {
                state: State::LightRing(Stage::Execution, ring),
                next_state: self.next_state,
                needs_to_shutdown: self.needs_to_shutdown,
            },
            Stage::Execution => self,
            Stage::Shutdown => self.handed_over(),
        }
    }

    /// Enters the light ring and goes on to its `Execution` stage.
    pub(crate) fn setup_light_ring(&mut self, ring: LightRingState)
        ensures
            *final(self) == old(self).after_light_ring(Stage::Setup, ring),
    {
        self.state = State::LightRing(Stage::Execution, ring);
    }

    /// The light ring at rest.
    pub(crate) fn execute_light_ring(&mut self)
        ensures
            *final(self) == *old(self),
    {
    }

    /// Leaves the light ring, all status LEDs off, for the mode named as
    /// next.
    pub(crate) fn shutdown_light_ring(&mut self) -> (plan: Vec<Action>)
        ensures
            plan_view(plan@) == all_off_plan(),
            *final(self) == old(self).handed_over(),
    {
        let plan = all_leds_off();
        self.hand_over();
        plan
    }

    /// One tick of the light ring's handler. In the light-ring mode the
    /// handler of the mode's stage runs; in any other mode nothing happens.
    pub(crate) fn tick_light_ring(&mut self) -> (plan: Vec<Action>)
        ensures
            plan_view(plan@) == (match old(self).state {
                State::LightRing(stage, _) => light_ring_plan(stage),
                _ => Seq::<ActionView>::empty(),
            }),
            *final(self) == (match old(self).state {
                State::LightRing(stage, ring) => old(self).after_light_ring(stage, ring),
                _ => *old(self),
            }),
    {
        if let State::LightRing(stage, ring) = self.state {
            match stage {
                Stage::Setup => {
                    self.setup_light_ring(ring);
                    let plan: Vec<Action> = Vec::new();
                    assert(plan_view(plan@) =~= light_ring_plan(stage));
                    plan
                },
                Stage::Execution => {
                    self.execute_light_ring();
                    let plan: Vec<Action> = Vec::new();
                    assert(plan_view(plan@) =~= light_ring_plan(stage));
                    plan
                },
                Stage::Shutdown => self.shutdown_light_ring(),
            }
        } else {
            let plan: Vec<Action> = Vec::new();
            assert(plan_view(plan@) =~= Seq::<ActionView>::empty());
            plan
        }
    }
}

} // verus!
