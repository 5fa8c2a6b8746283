use meowbox::bounded::DisplayText;
use meowbox::signal::{Command, CommandQueue, SignalBus};
use meowbox::states::{LightRingState, Stage, State};
use meowbox::tasks::mono_display::{MonoDisplayCommand, DISPLAY_QUEUE_DEPTH};
use meowbox::tasks::{BuzzerSequence, LEDRotationParams};

fn text(s: &str) -> MonoDisplayCommand {
    MonoDisplayCommand::WriteStr(DisplayText::try_from_str(s).unwrap())
}

fn is_text(cmd: &Option<MonoDisplayCommand>, expected: &str) -> bool {
    matches!(cmd, Some(MonoDisplayCommand::WriteStr(t)) if t.as_str() == expected)
}

#[test]
fn two_signals_before_a_take_yield_the_second_once() {
    let mut bus = SignalBus::new();
    assert!(!bus.signaled());
    bus.signal(Command::Buzzer(BuzzerSequence::SimpleTone200ms));
    bus.signal(Command::Buzzer(BuzzerSequence::Intermittent5ms2000ms));
    assert!(bus.signaled());
    assert!(matches!(
        bus.try_take(),
        Some(Command::Buzzer(BuzzerSequence::Intermittent5ms2000ms))
    ));
    assert!(bus.try_take().is_none());
    assert!(!bus.signaled());
}

#[test]
fn empty_bus_yields_nothing() {
    let mut bus = SignalBus::new();
    assert!(bus.try_take().is_none());
    bus.signal(Command::ChangeState(State::LightRing(Stage::Setup, LightRingState::Red)));
    assert!(bus.signaled());
    assert!(matches!(
        bus.try_take(),
        Some(Command::ChangeState(State::LightRing(Stage::Setup, LightRingState::Red)))
    ));
    assert!(bus.try_take().is_none());
}

#[test]
fn bus_carries_every_kind_of_command() {
    let mut bus = SignalBus::new();
    bus.signal(Command::Buzzer(BuzzerSequence::Intermittent10ms200ms));
    bus.signal(Command::LedRotation(LEDRotationParams::default()));
    match bus.try_take() {
        Some(Command::LedRotation(params)) => {
            assert_eq!(params.cycles, 5);
            assert_eq!(params.selection.len(), 5);
        }
        _ => panic!("expected the run of light"),
    }
    assert!(!bus.signaled());
}

#[test]
fn queue_keeps_order() {
    let mut queue = CommandQueue::new();
    assert_eq!(queue.len(), 0);
    assert!(queue.try_receive().is_none());
    assert!(queue.try_send(MonoDisplayCommand::Init).is_ok());
    assert!(queue.try_send(text("one")).is_ok());
    assert_eq!(queue.len(), 2);
    assert!(matches!(queue.try_receive(), Some(MonoDisplayCommand::Init)));
    assert!(queue.try_send(MonoDisplayCommand::Clear).is_ok());
    assert!(is_text(&queue.try_receive(), "one"));
    assert!(matches!(queue.try_receive(), Some(MonoDisplayCommand::Clear)));
    assert!(queue.try_receive().is_none());
    assert_eq!(queue.len(), 0);
}

#[test]
fn full_queue_turns_the_producer_away_and_loses_nothing() {
    assert_eq!(DISPLAY_QUEUE_DEPTH, 20);
    let mut queue = CommandQueue::new();
    for i in 0..DISPLAY_QUEUE_DEPTH {
        assert!(!queue.is_full());
        assert!(queue.try_send(text(&format!("t{}", i))).is_ok());
    }
    assert!(queue.is_full());
    assert_eq!(queue.len(), 20);
    let back = queue.try_send(text("late"));
    assert!(matches!(back, Err(MonoDisplayCommand::WriteStr(ref t)) if t.as_str() == "late"));
    assert_eq!(queue.len(), 20);
    assert!(is_text(&queue.try_receive(), "t0"));
    assert!(!queue.is_full());
    assert!(queue.try_send(text("late")).is_ok());
    for i in 1..DISPLAY_QUEUE_DEPTH {
        assert!(is_text(&queue.try_receive(), &format!("t{}", i)));
    }
    assert!(is_text(&queue.try_receive(), "late"));
    assert!(queue.try_receive().is_none());
}
