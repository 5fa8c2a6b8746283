//! The mode of the device and how it changes from tick to tick.
//!
//! The device is in one mode at a time. A mode with stages is entered at
//! `Setup`, stays at `Execution`, and is left through `Shutdown`. A change of
//! mode is asked for by naming the next mode and raising the shutdown flag;
//! the next tick then runs the shutdown of the current mode in place of
//! whatever it would have run, and the shutdown hands over to the next mode.

pub mod error_state;
pub mod flow_field;
pub mod light_ring;
pub mod menu_state;

use vstd::prelude::*;
use crate::states::error_state::error_plan;
use crate::states::flow_field::flow_field_plan;
use crate::states::light_ring::light_ring_plan;
use crate::states::menu_state::menu_plan;
use crate::hardware::SlotError;
use crate::tasks::{plan_view, Action, ActionView};

verus! {

/// The stage of a mode.
#[derive(Copy, Clone, Debug, PartialEq, Eq, Structural)]
pub enum Stage {
    Setup,
    Execution,
    Shutdown,
}

impl Default for Stage {
    fn default() -> (s: Self)
        ensures
            s == Stage::Setup,
    {
        Stage::Setup
    }
}

/// Why the device stopped.
#[derive(Copy, Clone, Debug, PartialEq, Eq, Structural)]
pub enum ErrorStateType {
    Unknown,
    /// The mode, or this stage of it, has no handler.
    StateNotImplemented,
    /// A shutdown ran without a mode to hand over to.
    NextStateNotSpecified,
}

impl Default for ErrorStateType {
    fn default() -> (e: Self)
        ensures
            e == ErrorStateType::Unknown,
    {
        ErrorStateType::Unknown
    }
}

/// The colour that the light ring shows.
#[derive(Copy, Clone, Debug, PartialEq, Eq, Structural)]
pub enum LightRingState {
    Red,
    Green,
    Blue,
    Yellow,
    White,
}

impl Default for LightRingState {
    fn default() -> (s: Self)
        ensures
            s == LightRingState::Red,
    {
        LightRingState::Red
    }
}

/// The variations of the flow field.
#[derive(Copy, Clone, Debug, PartialEq, Eq, Structural)]
pub enum FlowFieldState {
    Slow,
    Fast,
}

/// What the menu shows.
#[derive(Copy, Clone, Debug, PartialEq, Eq, Structural)]
pub enum MenuState {
    /// The banner that the menu puts up when it is entered.
    Banner,
}

impl Default for MenuState {
    fn default() -> (s: Self)
        ensures
            s == MenuState::Banner,
    {
        MenuState::Banner
    }
}

/// The mode of the device, with its stage and what else the mode remembers.
#[derive(Copy, Clone, Debug, PartialEq, Eq, Structural)]
pub enum State {
    Menu(Stage, MenuState),
    LightRing(Stage, LightRingState),
    FlowField(Stage, FlowFieldState),
    /// Light ring and flow field together.
    Debug(Stage, LightRingState, FlowFieldState),
    /// The device stopped. Nothing leads out of this mode but a reset.
    ErrorState(ErrorStateType),
}

impl State {
    /// The stage of the mode, where it has one.
    pub open spec fn stage(self) -> Option<Stage> {
        match self {
            State::Menu(stage, _) => Some(stage),
            State::LightRing(stage, _) => Some(stage),
            State::FlowField(stage, _) => Some(stage),
            State::Debug(stage, _, _) => Some(stage),
            State::ErrorState(_) => None,
        }
    }

    /// The same mode, remembering the same, at the stage `stage`. The error
    /// mode has no stage and stays as it is.
    pub open spec fn at_stage(self, stage: Stage) -> State {
        match self {
            State::Menu(_, menu) => State::Menu(stage, menu),
            State::LightRing(_, ring) => State::LightRing(stage, ring),
            State::FlowField(_, field) => State::FlowField(stage, field),
            State::Debug(_, ring, field) => State::Debug(stage, ring, field),
            State::ErrorState(kind) => State::ErrorState(kind),
        }
    }
}

/// The device: its mode, the mode asked for next, and the shutdown flag.
pub struct Meowbox {
    pub state: State,
    /// The mode to hand over to. It is named together with raising
    /// `needs_to_shutdown` and taken by the shutdown that follows.
    pub next_state: Option<State>,
    /// Raised to ask for a shutdown of the current mode; lowered by the tick
    /// that starts the shutdown.
    pub needs_to_shutdown: bool,
}

impl Meowbox {
    /// A next mode is named only while a change of mode is under way: the
    /// flag is up, or the current mode is shutting down. The error mode is
    /// exempt, for it serves no request.
    pub open spec fn wf(self) -> bool {
        self.next_state is Some ==> self.needs_to_shutdown || self.state.stage() == Some(
            Stage::Shutdown,
        ) || self.state is ErrorState
    }

    /// The device after the look at the shutdown flag that opens every tick.
    pub open spec fn after_shutdown_check(self) -> Meowbox {
        if self.needs_to_shutdown {
            Meowbox {
                state: self.state.at_stage(Stage::Shutdown),
                next_state: self.next_state,
                needs_to_shutdown: false,
            }
        } else {
            self
        }
    }

    /// A device in the given mode, with no change of mode asked for.
    pub fn new(starting_state: State) -> (m: Self)
        ensures
            m.state == starting_state,
            m.next_state is None,
            !m.needs_to_shutdown,
            m.wf(),
    {
        Meowbox { state: starting_state, next_state: None, needs_to_shutdown: false }
    }

    /// Asks for a change to the mode `target`: names it as the next mode and
    /// raises the shutdown flag.
    pub fn request_transition(&mut self, target: State)
        ensures
            final(self).state == old(self).state,
            final(self).next_state == Some(target),
            final(self).needs_to_shutdown,
            final(self).wf(),
    {
        self.next_state = Some(target);
        self.needs_to_shutdown = true;
    }

    /// Starts the shutdown if the flag is up: lowers the flag and puts the
    /// current mode to its `Shutdown` stage, keeping what the mode remembers.
    pub fn check_for_shutdown_transition(&mut self)
        ensures
            *final(self) == old(self).after_shutdown_check(),
            !final(self).needs_to_shutdown,
            old(self).needs_to_shutdown && old(self).state.stage() is Some
                ==> final(self).state.stage() == Some(Stage::Shutdown),
    {
        if !self.needs_to_shutdown {
            return ;
        }
        self.needs_to_shutdown = false;
        match self.state {
            State::Menu(_, menu) => {
                self.state = State::Menu(Stage::Shutdown, menu);
            },
            State::LightRing(_, ring) => {
                self.state = State::LightRing(Stage::Shutdown, ring);
            },
            State::FlowField(_, field) => {
                self.state = State::FlowField(Stage::Shutdown, field);
            },
            State::Debug(_, ring, field) => {
                self.state = State::Debug(Stage::Shutdown, ring, field);
            },
            State::ErrorState(_) => {},
        }
    }

    /// The device after the caller reported how performing a tick's actions
    /// ended.
    pub open spec fn after_report(self, outcome: Result<(), SlotError>) -> Meowbox {
        if outcome == Err::<(), SlotError>(SlotError::Uninitialized) {
            Meowbox {
                state: State::ErrorState(ErrorStateType::Unknown),
                next_state: self.next_state,
                needs_to_shutdown: self.needs_to_shutdown,
            }
        } else {
            self
        }
    }

    /// Takes note of how performing a tick's actions ended. A line whose
    /// slot was never filled is a fault in the order of start-up that the
    /// device cannot get past: it stops, visibly, in the error mode. Any
    /// other outcome changes nothing.
    pub fn report(&mut self, outcome: Result<(), SlotError>)
        ensures
            *final(self) == old(self).after_report(outcome),
    {
        match outcome {
            Err(SlotError::Uninitialized) => {
                self.state = State::ErrorState(ErrorStateType::Unknown);
            },
            _ => {},
        }
    }

    /// What a shutdown hands over to: the mode named as next, or the error
    /// mode when none was named.
    pub open spec fn handed_over(self) -> Meowbox {
        Meowbox {
            state: match self.next_state {
                Some(next) => next,
                None => State::ErrorState(ErrorStateType::NextStateNotSpecified),
            },
            next_state: None,
            needs_to_shutdown: self.needs_to_shutdown,
        }
    }

    /// Ends the current mode: takes the mode named as next and makes it the
    /// current one, or stops the device when none was named.
    pub(crate) fn hand_over(&mut self)
        ensures
            *final(self) == old(self).handed_over(),
    {
        self.state = match self.next_state.take() {
            Some(next) => next,
            None => State::ErrorState(ErrorStateType::NextStateNotSpecified),
        };
    }
}

impl Meowbox {
    /// The device after the handler of its current mode and stage ran.
    pub open spec fn after_handler(self) -> Meowbox {
        match self.state {
            State::Menu(stage, _) => self.after_menu(stage),
            State::LightRing(stage, ring) => self.after_light_ring(stage, ring),
            State::FlowField(stage, field) => self.after_flow_field(stage, field),
            State::Debug(_, _, _) => Meowbox {
                state: State::ErrorState(ErrorStateType::StateNotImplemented),
                next_state: self.next_state,
                needs_to_shutdown: self.needs_to_shutdown,
            },
            State::ErrorState(_) => self,
        }
    }

    /// What the handler of the current mode and stage asks the caller to do.
    pub open spec fn handler_plan(self) -> Seq<ActionView> {
        match self.state {
            State::Menu(stage, _) => menu_plan(stage),
            State::LightRing(stage, _) => light_ring_plan(stage),
            State::FlowField(stage, _) => flow_field_plan(stage),
            State::Debug(_, _, _) => seq![],
            State::ErrorState(_) => error_plan(),
        }
    }

    /// The device after one tick.
    pub open spec fn after_tick(self) -> Meowbox {
        self.after_shutdown_check().after_handler()
    }

    /// What one tick asks the caller to do.
    pub open spec fn tick_plan(self) -> Seq<ActionView> {
        self.after_shutdown_check().handler_plan()
    }

    /// One tick of the device. The shutdown flag is looked at first; then the
    /// handler for the mode and stage that the device is in by then runs. The
    /// actions that come back are for the caller to perform before the next
    /// tick.
    pub fn tick(&mut self) -> (plan: Vec<Action>)
        ensures
            *final(self) == old(self).after_tick(),
            plan_view(plan@) == old(self).tick_plan(),
    {
        self.check_for_shutdown_transition();
        match self.state {
            State::Menu(_, _) => self.tick_menu_state(),
            State::LightRing(_, _) => self.tick_light_ring(),
            State::FlowField(_, _) => self.tick_flow_field(),
            State::ErrorState(_) => self.tick_error_state(),
            State::Debug(_, _, _) => {
                self.state = State::ErrorState(ErrorStateType::StateNotImplemented);
                let plan: Vec<Action> = Vec::new();
                assert(plan_view(plan@) =~= old(self).tick_plan());
                plan
            },
        }
    }
}

/// The mode has handlers for its three stages.
pub open spec fn staged(state: State) -> bool {
    state is Menu || state is LightRing || state is FlowField
}

/// A tick with the flag down on a menu at `Setup` leads to the menu at
/// `Execution`, showing what a menu shows at first.
pub proof fn lemma_menu_setup_leads_to_execution(m: Meowbox, menu: MenuState)
    requires
        m.state == State::Menu(Stage::Setup, menu),
        !m.needs_to_shutdown,
    ensures
        m.after_tick().state == State::Menu(Stage::Execution, MenuState::Banner),
        m.after_tick().next_state == m.next_state,
{
}

/// A tick with the flag up runs the shutdown of the current mode, whatever
/// stage the mode was at: the flag is down afterwards, no next mode is named
/// any more, and the device is in the mode that was named as next, or in
/// the error mode `NextStateNotSpecified` if none was. A tick that finds
/// the mode at `Shutdown` with the flag down does the same.
pub proof fn lemma_shutdown_overrides(m: Meowbox)
    requires
        staged(m.state),
        m.needs_to_shutdown || m.state.stage() == Some(Stage::Shutdown),
    ensures
        m.after_shutdown_check().state == m.state.at_stage(Stage::Shutdown),
        !m.after_tick().needs_to_shutdown,
        m.after_tick().next_state is None,
        m.next_state matches Some(next) ==> m.after_tick().state == next,
        m.next_state is None ==> m.after_tick().state == State::ErrorState(
            ErrorStateType::NextStateNotSpecified,
        ),
{
}

/// Nothing leads out of the error mode, and the debug mode, which has no
/// handlers, leads into it.
pub proof fn lemma_error_is_terminal(m: Meowbox)
    ensures
        m.state is ErrorState ==> m.after_tick().state == m.state,
        m.state is ErrorState ==> m.tick_plan() == error_plan(),
        m.state is Debug ==> m.after_tick().state == State::ErrorState(
            ErrorStateType::StateNotImplemented,
        ),
{
}

/// After every tick the flag is down, and a device that named a next mode
/// only during a change of mode still does so.
pub proof fn lemma_tick_keeps_order(m: Meowbox)
    ensures
        !m.after_tick().needs_to_shutdown,
        m.wf() ==> m.after_tick().wf(),
        !m.needs_to_shutdown && m.state.stage() == Some(Stage::Execution)
            ==> m.after_tick().state == m.state || m.state is Debug,
{
}

} // verus!
