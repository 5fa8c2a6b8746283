use meowbox::hardware::{OutputLine, PinOp};
use meowbox::physics::generate_particles;
use meowbox::states::{
    ErrorStateType, FlowFieldState, LightRingState, MenuState, Meowbox, Stage, State,
};
use meowbox::tasks::mono_display::MonoDisplayCommand;
use meowbox::tasks::Action;

fn is_all_leds_off(plan: &[Action]) -> bool {
    let lines = [
        OutputLine::RedLed,
        OutputLine::GreenLed,
        OutputLine::BlueLed,
        OutputLine::YellowLed,
        OutputLine::WhiteLed,
    ];
    plan.len() == 5
        && plan
            .iter()
            .zip(lines)
            .all(|(a, line)| matches!(a, Action::Drive(l, PinOp::SetLow) if *l == line))
}

#[test]
fn new_device_has_no_pending_change() {
    let device = Meowbox::new(State::Menu(Stage::Setup, MenuState::Banner));
    assert_eq!(device.state, State::Menu(Stage::Setup, MenuState::Banner));
    assert_eq!(device.next_state, None);
    assert!(!device.needs_to_shutdown);
}

#[test]
fn defaults_are_the_first_variants() {
    assert_eq!(Stage::default(), Stage::Setup);
    assert_eq!(ErrorStateType::default(), ErrorStateType::Unknown);
    assert_eq!(LightRingState::default(), LightRingState::Red);
    assert_eq!(MenuState::default(), MenuState::Banner);
}

#[test]
fn menu_setup_leads_to_menu_execution() {
    let mut device = Meowbox::new(State::Menu(Stage::Setup, MenuState::Banner));
    let plan = device.tick();
    assert_eq!(device.state, State::Menu(Stage::Execution, MenuState::default()));
    assert_eq!(plan.len(), 17);
    assert!(matches!(plan[0], Action::Send(MonoDisplayCommand::SwitchToTerminal)));
    assert!(matches!(plan[1], Action::Send(MonoDisplayCommand::Init)));
    assert!(matches!(plan[2], Action::Send(MonoDisplayCommand::Clear)));
    let texts = [
        "meowbox", " \non!", " \naon!", " \nbon!", " \ncon!", " \ndon!", " \neon!", " \nfon!",
        " \ngon!",
    ];
    for (i, text) in texts.iter().enumerate() {
        match &plan[3 + i] {
            Action::Send(MonoDisplayCommand::WriteStr(t)) => assert_eq!(t.as_str(), *text),
            _ => panic!("action {} is not a text", 3 + i),
        }
    }
    assert!(is_all_leds_off(&plan[12..]));
}

#[test]
fn menu_execution_rests_half_a_second() {
    let mut device = Meowbox::new(State::Menu(Stage::Execution, MenuState::Banner));
    let plan = device.tick();
    assert_eq!(device.state, State::Menu(Stage::Execution, MenuState::Banner));
    assert_eq!(plan.len(), 1);
    assert!(matches!(plan[0], Action::DelayMillis(500)));
}

#[test]
fn shutdown_flag_overrides_execution() {
    let mut device = Meowbox::new(State::Menu(Stage::Execution, MenuState::Banner));
    device.next_state = Some(State::LightRing(Stage::Setup, LightRingState::Red));
    device.needs_to_shutdown = true;
    let plan = device.tick();
    assert!(plan.is_empty());
    assert!(!device.needs_to_shutdown);
    assert_eq!(device.next_state, None);
    assert_eq!(device.state, State::LightRing(Stage::Setup, LightRingState::Red));
}

#[test]
fn shutdown_check_rewrites_the_stage_and_keeps_the_substate() {
    let mut device = Meowbox::new(State::LightRing(Stage::Execution, LightRingState::Blue));
    device.request_transition(State::Menu(Stage::Setup, MenuState::Banner));
    assert!(device.needs_to_shutdown);
    device.check_for_shutdown_transition();
    assert!(!device.needs_to_shutdown);
    assert_eq!(device.state, State::LightRing(Stage::Shutdown, LightRingState::Blue));
    assert_eq!(device.next_state, Some(State::Menu(Stage::Setup, MenuState::Banner)));

    let mut debug =
        Meowbox::new(State::Debug(Stage::Setup, LightRingState::Green, FlowFieldState::Fast));
    debug.needs_to_shutdown = true;
    debug.check_for_shutdown_transition();
    assert_eq!(
        debug.state,
        State::Debug(Stage::Shutdown, LightRingState::Green, FlowFieldState::Fast)
    );

    let mut stopped = Meowbox::new(State::ErrorState(ErrorStateType::Unknown));
    stopped.needs_to_shutdown = true;
    stopped.check_for_shutdown_transition();
    assert!(!stopped.needs_to_shutdown);
    assert_eq!(stopped.state, State::ErrorState(ErrorStateType::Unknown));
}

#[test]
fn shutdown_check_without_flag_changes_nothing() {
    let mut device = Meowbox::new(State::FlowField(Stage::Execution, FlowFieldState::Slow));
    device.check_for_shutdown_transition();
    assert_eq!(device.state, State::FlowField(Stage::Execution, FlowFieldState::Slow));
    assert!(!device.needs_to_shutdown);
}

#[test]
fn shutdown_with_next_state_hands_over_to_exactly_that_state() {
    let mut device = Meowbox::new(State::Menu(Stage::Shutdown, MenuState::Banner));
    device.next_state = Some(State::LightRing(Stage::Setup, LightRingState::Red));
    device.tick();
    assert_eq!(device.state, State::LightRing(Stage::Setup, LightRingState::Red));
    assert_eq!(device.next_state, None);
}

#[test]
fn shutdown_without_next_state_stops_the_device() {
    for start in [
        State::Menu(Stage::Shutdown, MenuState::Banner),
        State::LightRing(Stage::Shutdown, LightRingState::White),
        State::FlowField(Stage::Shutdown, FlowFieldState::Fast),
    ] {
        let mut device = Meowbox::new(start);
        device.tick();
        assert_eq!(device.state, State::ErrorState(ErrorStateType::NextStateNotSpecified));
    }
}

#[test]
fn light_ring_goes_through_its_stages() {
    let mut device = Meowbox::new(State::LightRing(Stage::Setup, LightRingState::Yellow));
    assert!(device.tick().is_empty());
    assert_eq!(device.state, State::LightRing(Stage::Execution, LightRingState::Yellow));
    assert!(device.tick().is_empty());
    assert_eq!(device.state, State::LightRing(Stage::Execution, LightRingState::Yellow));
    device.request_transition(State::FlowField(Stage::Setup, FlowFieldState::Slow));
    let plan = device.tick();
    assert!(is_all_leds_off(&plan));
    assert_eq!(device.state, State::FlowField(Stage::Setup, FlowFieldState::Slow));
}

#[test]
fn flow_field_setup_asks_for_the_animation() {
    let mut device = Meowbox::new(State::FlowField(Stage::Setup, FlowFieldState::Fast));
    let plan = device.tick();
    assert_eq!(plan.len(), 1);
    assert!(matches!(plan[0], Action::PrepareFlowField));
    assert_eq!(device.state, State::FlowField(Stage::Execution, FlowFieldState::Fast));
    assert!(device.tick().is_empty());
    assert_eq!(device.state, State::FlowField(Stage::Execution, FlowFieldState::Fast));
}

#[test]
fn debug_mode_is_not_implemented() {
    let mut device =
        Meowbox::new(State::Debug(Stage::Setup, LightRingState::Red, FlowFieldState::Slow));
    assert!(device.tick().is_empty());
    assert_eq!(device.state, State::ErrorState(ErrorStateType::StateNotImplemented));
}

#[test]
fn error_state_blinks_and_stays() {
    let mut device = Meowbox::new(State::ErrorState(ErrorStateType::NextStateNotSpecified));
    device.request_transition(State::Menu(Stage::Setup, MenuState::Banner));
    for _ in 0..3 {
        let plan = device.tick();
        assert_eq!(plan.len(), 2);
        assert!(matches!(plan[0], Action::Drive(OutputLine::RedLed, PinOp::Toggle)));
        assert!(matches!(plan[1], Action::DelayMillis(200)));
        assert_eq!(device.state, State::ErrorState(ErrorStateType::NextStateNotSpecified));
        assert!(!device.needs_to_shutdown);
    }
}

#[test]
fn generating_particles_changes_nothing() {
    let device = Meowbox::new(State::FlowField(Stage::Setup, FlowFieldState::Slow));
    generate_particles();
    assert_eq!(device.state, State::FlowField(Stage::Setup, FlowFieldState::Slow));
}
