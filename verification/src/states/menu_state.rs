//! The menu mode.

use vstd::prelude::*;
use vstd::string::is_ascii;
use vstd::utf8::is_ascii_chars_encode_utf8;
use crate::bounded::DisplayText;
use crate::states::{Meowbox, MenuState, Stage, State};
use crate::tasks::leds::{all_leds_off, all_off_plan};
use crate::tasks::mono_display::{CommandView, MonoDisplayCommand};
use crate::tasks::{plan_view, Action, ActionView};

verus! {

/// How long the menu rests between two ticks, in milliseconds.
pub const MENU_REST_MILLIS: u64 = 500;

/// The texts that the menu writes to the terminal when it is entered, in
/// order. Each starts a new line but the first.
pub open spec fn banner_texts() -> Seq<Seq<char>> {
    seq![
        "meowbox"@,
        " \non!"@,
        " \naon!"@,
        " \nbon!"@,
        " \ncon!"@,
        " \ndon!"@,
        " \neon!"@,
        " \nfon!"@,
        " \ngon!"@,
    ]
}

/// What entering the menu does: the display becomes a terminal, is started
/// and cleared, the banner is written, and all status LEDs go off.
pub open spec fn menu_setup_plan() -> Seq<ActionView> {
    seq![
        ActionView::Send(CommandView::SwitchToTerminal),
        ActionView::Send(CommandView::Init),
        ActionView::Send(CommandView::Clear),
    ] + Seq::new(9, |i: int| ActionView::Send(CommandView::WriteStr(banner_texts()[i])))
        + all_off_plan()
}

/// The command that writes `s`, a text of plain ASCII that fits the display's
/// buffer.
fn write(s: &str) -> (a: Action)
    requires
        is_ascii(s),
        s@.len() <= 10,
    ensures
        a@ == ActionView::Send(CommandView::WriteStr(s@)),
{
    proof {
        is_ascii_chars_encode_utf8(s@);
    }
    let text = DisplayText::try_from_str(s);
    Action::Send(MonoDisplayCommand::WriteStr(text.unwrap()))
}

impl Meowbox {
    /// Enters the menu and goes on to its `Execution` stage.
    pub(crate) fn setup_menu_state(&mut self) -> (plan: Vec<Action>)
        ensures
            plan_view(plan@) == menu_setup_plan(),
            final(self).state == State::Menu(Stage::Execution, MenuState::Banner),
            final(self).next_state == old(self).next_state,
            final(self).needs_to_shutdown == old(self).needs_to_shutdown,
    {
        proof {
            reveal_strlit("meowbox");
            reveal_strlit(" \non!");
            reveal_strlit(" \naon!");
            reveal_strlit(" \nbon!");
            reveal_strlit(" \ncon!");
            reveal_strlit(" \ndon!");
            reveal_strlit(" \neon!");
            reveal_strlit(" \nfon!");
            reveal_strlit(" \ngon!");
        }
        let mut plan: Vec<Action> = Vec::new();
        plan.push(Action::Send(MonoDisplayCommand::SwitchToTerminal));
        plan.push(Action::Send(MonoDisplayCommand::Init));
        plan.push(Action::Send(MonoDisplayCommand::Clear));
        plan.push(write("meowbox"));
        plan.push(write(" \non!"));
        plan.push(write(" \naon!"));
        plan.push(write(" \nbon!"));
        plan.push(write(" \ncon!"));
        plan.push(write(" \ndon!"));
        plan.push(write(" \neon!"));
        plan.push(write(" \nfon!"));
        plan.push(write(" \ngon!"));
        let mut dark = all_leds_off();
        let ghost head = plan_view(plan@);
        let ghost tail = plan_view(dark@);
        plan.append(&mut dark);
        assert(plan_view(plan@) =~= head + tail);
        assert(plan_view(plan@) =~= menu_setup_plan());
        self.state = State::Menu(Stage::Execution, MenuState::default());
        plan
    }

    /// The menu at rest: nothing changes, and the task waits before the next
    /// tick.
    pub(crate) fn execute_menu_state(&mut self) -> (plan: Vec<Action>)
        ensures
            plan_view(plan@) == seq![ActionView::DelayMillis(MENU_REST_MILLIS)],
            *final(self) == *old(self),
    {
        let mut plan: Vec<Action> = Vec::new();
        plan.push(Action::DelayMillis(MENU_REST_MILLIS));
        assert(plan_view(plan@) =~= seq![ActionView::DelayMillis(MENU_REST_MILLIS)]);
        plan
    }

    /// Leaves the menu for the mode named as next.
    pub(crate) fn shutdown_menu_state(&mut self) -> (plan: Vec<Action>)
        ensures
            plan@.len() == 0,
            *final(self) == old(self).handed_over(),
    {
        self.hand_over();
        Vec::new()
    }

    /// One tick of the menu's handler. In the menu mode the handler of the
    /// menu's stage runs; in any other mode nothing happens.
    pub(crate) fn tick_menu_state(&mut self) -> (plan: Vec<Action>)
        ensures
            plan_view(plan@) == (match old(self).state {
                State::Menu(stage, _) => menu_plan(stage),
                _ => Seq::<ActionView>::empty(),
            }),
            *final(self) == (match old(self).state {
                State::Menu(stage, _) => old(self).after_menu(stage),
                _ => *old(self),
            }),
    {
        if let State::Menu(stage, _) = self.state {
            match stage {
                Stage::Setup => self.setup_menu_state(),
                Stage::Execution => self.execute_menu_state(),
                Stage::Shutdown => {
                    let plan = self.shutdown_menu_state();
                    assert(plan_view(plan@) =~= menu_plan(stage));
                    plan
                },
            }
        } else {
            let plan: Vec<Action> = Vec::new();
            assert(plan_view(plan@) =~= Seq::<ActionView>::empty());
            plan
        }
    }

    /// The device after a tick that found the menu at `stage`.
    pub open spec fn after_menu(self, stage: Stage) -> Meowbox {
        match stage {
            Stage::Setup => Meowbox {
                state: State::Menu(Stage::Execution, MenuState::Banner),
                next_state: self.next_state,
                needs_to_shutdown: self.needs_to_shutdown,
            },
            Stage::Execution => self,
            Stage::Shutdown => self.handed_over(),
        }
    }
}

/// What a tick does that finds the menu at `stage`.
pub open spec fn menu_plan(stage: Stage) -> Seq<ActionView> {
    match stage {
        Stage::Setup => menu_setup_plan(),
        Stage::Execution => seq![ActionView::DelayMillis(MENU_REST_MILLIS)],
        Stage::Shutdown => seq![],
    }
}

} // verus!
