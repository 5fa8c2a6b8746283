use meowbox::bounded::DisplayText;
use meowbox::tasks::mono_display::{
    display_task, DriverCall, InitStep, MonoDisplay, MonoDisplayCommand, DISPLAY_QUEUE_DEPTH,
    INIT_RETRY_MILLIS,
};

#[test]
fn mode_switches() {
    assert_eq!(MonoDisplay::Graphics.to_terminal(), MonoDisplay::Terminal);
    assert_eq!(MonoDisplay::Terminal.to_terminal(), MonoDisplay::Terminal);
    assert_eq!(MonoDisplay::Terminal.to_graphics(), MonoDisplay::Graphics);
    assert_eq!(MonoDisplay::Graphics.to_graphics(), MonoDisplay::Graphics);
}

#[test]
fn init_is_retried_until_it_succeeds() {
    assert_eq!(INIT_RETRY_MILLIS, 200);
    assert_eq!(DISPLAY_QUEUE_DEPTH, 20);
    for display in [MonoDisplay::Graphics, MonoDisplay::Terminal] {
        assert_eq!(display.cmd_init(false), InitStep::RetryAfter(200));
        assert_eq!(display.cmd_init(true), InitStep::Done);
    }
}

#[test]
fn clear_depends_on_the_mode() {
    assert_eq!(MonoDisplay::Terminal.cmd_clear(), vec![DriverCall::ClearTerminal]);
    assert_eq!(
        MonoDisplay::Graphics.cmd_clear(),
        vec![DriverCall::ClearBuffer, DriverCall::Flush]
    );
}

#[test]
fn process_command_leaves_switching_to_the_task() {
    let display = MonoDisplay::Graphics;
    assert_eq!(display.process_command(&MonoDisplayCommand::Init), vec![DriverCall::Init]);
    assert_eq!(
        display.process_command(&MonoDisplayCommand::Clear),
        vec![DriverCall::ClearBuffer, DriverCall::Flush]
    );
    assert!(display.process_command(&MonoDisplayCommand::SwitchToTerminal).is_empty());
    assert!(display.process_command(&MonoDisplayCommand::SwitchToGraphics).is_empty());
}

#[test]
fn display_task_switches_and_passes_on() {
    let (mode, calls) = display_task(MonoDisplay::Graphics, &MonoDisplayCommand::SwitchToTerminal);
    assert_eq!(mode, MonoDisplay::Terminal);
    assert_eq!(calls, vec![DriverCall::IntoTerminal]);
    let (mode, calls) = display_task(mode, &MonoDisplayCommand::SwitchToTerminal);
    assert_eq!(mode, MonoDisplay::Terminal);
    assert!(calls.is_empty());
    let (mode, calls) = display_task(mode, &MonoDisplayCommand::Init);
    assert_eq!((mode, calls), (MonoDisplay::Terminal, vec![DriverCall::Init]));
    let (mode, calls) = display_task(mode, &MonoDisplayCommand::Clear);
    assert_eq!((mode, calls), (MonoDisplay::Terminal, vec![DriverCall::ClearTerminal]));
    let text = MonoDisplayCommand::WriteStr(DisplayText::try_from_str("meowbox").unwrap());
    let (mode, calls) = display_task(mode, &text);
    assert_eq!((mode, calls), (MonoDisplay::Terminal, vec![DriverCall::Print]));
    let (mode, calls) = display_task(mode, &MonoDisplayCommand::SwitchToGraphics);
    assert_eq!((mode, calls), (MonoDisplay::Graphics, vec![DriverCall::IntoGraphics]));
    let (mode, calls) = display_task(mode, &text);
    assert_eq!(mode, MonoDisplay::Graphics);
    assert!(calls.is_empty());
}
