//! The commands of the display task and the mode of the display.
//!
//! The display is either a character terminal or a pixel buffer. Switching
//! takes the display apart and puts it together again, so the task that owns
//! it handles the two switching commands itself and passes the others on.

use vstd::prelude::*;
use crate::bounded::DisplayText;

verus! {

/// How many commands may wait for the display task. A sender that finds the
/// channel full is held back until there is room; nothing is dropped.
pub const DISPLAY_QUEUE_DEPTH: usize = 20;

/// How long the display task waits before it tries a failed start-up again,
/// in milliseconds.
pub const INIT_RETRY_MILLIS: u64 = 200;

/// The commands that the display task takes.
pub enum MonoDisplayCommand {
    Init,
    Clear,
    SwitchToTerminal,
    SwitchToGraphics,
    /// Write a short text at the cursor of the terminal.
    WriteStr(DisplayText),
}

/// A command, with the text it carries as a sequence of characters.
pub enum CommandView {
    Init,
    Clear,
    SwitchToTerminal,
    SwitchToGraphics,
    WriteStr(Seq<char>),
}

impl View for MonoDisplayCommand {
    type V = CommandView;

    open spec fn view(&self) -> CommandView {
        match self {
            MonoDisplayCommand::Init => CommandView::Init,
            MonoDisplayCommand::Clear => CommandView::Clear,
            MonoDisplayCommand::SwitchToTerminal => CommandView::SwitchToTerminal,
            MonoDisplayCommand::SwitchToGraphics => CommandView::SwitchToGraphics,
            MonoDisplayCommand::WriteStr(t) => CommandView::WriteStr(t@),
        }
    }
}

/// The mode that the display is in.
#[derive(Copy, Clone, Debug, PartialEq, Eq, Structural)]
pub enum MonoDisplay {
    Graphics,
    Terminal,
}

/// One call into the display driver.
#[derive(Copy, Clone, Debug, PartialEq, Eq, Structural)]
pub enum DriverCall {
    /// Start the controller up. It may fail, see [`MonoDisplay::cmd_init`].
    Init,
    /// Blank the terminal.
    ClearTerminal,
    /// Set every pixel of the buffer to off.
    ClearBuffer,
    /// Send the buffer to the panel.
    Flush,
    /// Rebuild the display as a terminal.
    IntoTerminal,
    /// Rebuild the display as a pixel buffer.
    IntoGraphics,
    /// Print the text of the command at hand.
    Print,
}

/// What the display task does after one try to start the controller.
#[derive(Copy, Clone, Debug, PartialEq, Eq, Structural)]
pub enum InitStep {
    /// The controller runs; the command is done.
    Done,
    /// Wait this many milliseconds, then try again.
    RetryAfter(u64),
}

impl MonoDisplay {
    /// The driver calls that `cmd` stands for when the display is in mode
    /// `self`, in order.
    pub open spec fn calls(self, cmd: CommandView) -> Seq<DriverCall> {
        match cmd {
            CommandView::Init => seq![DriverCall::Init],
            CommandView::Clear => match self {
                MonoDisplay::Terminal => seq![DriverCall::ClearTerminal],
                MonoDisplay::Graphics => seq![DriverCall::ClearBuffer, DriverCall::Flush],
            },
            CommandView::SwitchToTerminal => match self {
                MonoDisplay::Graphics => seq![DriverCall::IntoTerminal],
                MonoDisplay::Terminal => seq![],
            },
            CommandView::SwitchToGraphics => match self {
                MonoDisplay::Terminal => seq![DriverCall::IntoGraphics],
                MonoDisplay::Graphics => seq![],
            },
            CommandView::WriteStr(_) => match self {
                MonoDisplay::Terminal => seq![DriverCall::Print],
                MonoDisplay::Graphics => seq![],
            },
        }
    }

    /// The mode of the display after `cmd`.
    pub open spec fn after(self, cmd: CommandView) -> MonoDisplay {
        match cmd {
            CommandView::SwitchToTerminal => MonoDisplay::Terminal,
            CommandView::SwitchToGraphics => MonoDisplay::Graphics,
            _ => self,
        }
    }

    /// A display in graphics mode becomes a terminal; a terminal stays one.
    pub fn to_terminal(self) -> (d: Self)
        ensures
            d == MonoDisplay::Terminal,
            d == self.after(CommandView::SwitchToTerminal),
    {
        match self {
            MonoDisplay::Graphics => MonoDisplay::Terminal,
            other => other,
        }
    }

    /// A terminal becomes a display in graphics mode; one in graphics mode
    /// stays so.
    pub fn to_graphics(self) -> (d: Self)
        ensures
            d == MonoDisplay::Graphics,
            d == self.after(CommandView::SwitchToGraphics),
    {
        match self {
            MonoDisplay::Terminal => MonoDisplay::Graphics,
            other => other,
        }
    }

    /// What one try to start the controller leads to: done when the driver
    /// reported success, else another try after [`INIT_RETRY_MILLIS`]. The
    /// task never gives up.
    pub fn cmd_init(&self, driver_ok: bool) -> (step: InitStep)
        ensures
            driver_ok ==> step == InitStep::Done,
            !driver_ok ==> step == InitStep::RetryAfter(INIT_RETRY_MILLIS),
    {
        if driver_ok {
            InitStep::Done
        } else {
            InitStep::RetryAfter(INIT_RETRY_MILLIS)
        }
    }

    /// The driver calls that clear the display: a terminal is blanked; a
    /// pixel buffer is set to off and then sent to the panel.
    pub fn cmd_clear(&self) -> (calls: Vec<DriverCall>)
        ensures
            calls@ == self.calls(CommandView::Clear),
    {
        let mut calls: Vec<DriverCall> = Vec::new();
        match self {
            MonoDisplay::Terminal => {
                calls.push(DriverCall::ClearTerminal);
            },
            MonoDisplay::Graphics => {
                calls.push(DriverCall::ClearBuffer);
                calls.push(DriverCall::Flush);
            },
        }
        assert(calls@ =~= self.calls(CommandView::Clear));
        calls
    }

    /// The driver calls for a command that leaves the mode alone. The two
    /// switching commands are not for this function and give no call here.
    pub fn process_command(&self, cmd: &MonoDisplayCommand) -> (calls: Vec<DriverCall>)
        ensures
            calls@ == match cmd@ {
                CommandView::SwitchToTerminal => Seq::<DriverCall>::empty(),
                CommandView::SwitchToGraphics => Seq::<DriverCall>::empty(),
                other => self.calls(other),
            },
    {
        let mut calls: Vec<DriverCall> = Vec::new();
        match cmd {
            MonoDisplayCommand::Init => {
                calls.push(DriverCall::Init);
                assert(calls@ =~= self.calls(CommandView::Init));
            },
            MonoDisplayCommand::Clear => {
                calls = self.cmd_clear();
            },
            MonoDisplayCommand::WriteStr(_) => {
                match self {
                    MonoDisplay::Terminal => {
                        calls.push(DriverCall::Print);
                    },
                    MonoDisplay::Graphics => {},
                }
                assert(calls@ =~= self.calls(cmd@));
            },
            MonoDisplayCommand::SwitchToGraphics | MonoDisplayCommand::SwitchToTerminal => {
                assert(calls@ =~= Seq::<DriverCall>::empty());
            },
        }
        calls
    }
}

/// One turn of the display task: the mode after `cmd`, and the driver calls
/// to make for it, in order.
pub fn display_task(display: MonoDisplay, cmd: &MonoDisplayCommand) -> (r: (
    MonoDisplay,
    Vec<DriverCall>,
))
    ensures
        r.0 == display.after(cmd@),
        r.1@ == display.calls(cmd@),
{
    match cmd {
        MonoDisplayCommand::SwitchToGraphics => {
            let mut calls: Vec<DriverCall> = Vec::new();
            match display {
                MonoDisplay::Terminal => {
                    calls.push(DriverCall::IntoGraphics);
                },
                MonoDisplay::Graphics => {},
            }
            assert(calls@ =~= display.calls(cmd@));
            (display.to_graphics(), calls)
        },
        MonoDisplayCommand::SwitchToTerminal => {
            let mut calls: Vec<DriverCall> = Vec::new();
            match display {
                MonoDisplay::Graphics => {
                    calls.push(DriverCall::IntoTerminal);
                },
                MonoDisplay::Terminal => {},
            }
            assert(calls@ =~= display.calls(cmd@));
            (display.to_terminal(), calls)
        },
        _ => {
            let calls = display.process_command(cmd);
            (display, calls)
        },
    }
}

} // verus!
