use meowbox::bounded::{DisplayText, LedPattern, TextTooLong, PATTERN_CAPACITY, TEXT_CAPACITY};
use meowbox::hardware::{OutputLine, PinOp};
use meowbox::tasks::buttons::{
    left_button_event, right_button_event, rotary_switch_left_event, rotary_switch_right_event,
};
use meowbox::tasks::buzzer::execute_sequence;
use meowbox::tasks::leds::{all_leds_off, led_rotation};
use meowbox::tasks::{Action, BuzzerSequence, LEDRotationParams, LEDSelect};

fn ring() -> [LEDSelect; 5] {
    [LEDSelect::RED, LEDSelect::GREEN, LEDSelect::BLUE, LEDSelect::YELLOW, LEDSelect::WHITE]
}

fn pattern_of(leds: &[LEDSelect]) -> LedPattern {
    let mut pattern = LedPattern::new();
    for led in leds {
        assert_eq!(pattern.push(*led), Ok(()));
    }
    pattern
}

#[test]
fn led_select_index_and_line() {
    let lines = [
        OutputLine::RedLed,
        OutputLine::GreenLed,
        OutputLine::BlueLed,
        OutputLine::YellowLed,
        OutputLine::WhiteLed,
    ];
    for (i, led) in ring().iter().enumerate() {
        assert_eq!(led.index(), i);
        assert_eq!(led.line(), lines[i]);
    }
}

#[test]
fn pattern_keeps_items_in_order() {
    let mut pattern = LedPattern::new();
    assert_eq!(pattern.len(), 0);
    assert_eq!(pattern.get(0), None);
    assert_eq!(pattern.push(LEDSelect::BLUE), Ok(()));
    assert_eq!(pattern.push(LEDSelect::RED), Ok(()));
    assert_eq!(pattern.len(), 2);
    assert_eq!(pattern.get(0), Some(LEDSelect::BLUE));
    assert_eq!(pattern.get(1), Some(LEDSelect::RED));
    assert_eq!(pattern.get(2), None);
}

#[test]
fn pattern_refuses_the_twenty_first_item() {
    let mut pattern = LedPattern::new();
    for i in 0..PATTERN_CAPACITY {
        assert_eq!(pattern.push(ring()[i % 5]), Ok(()));
    }
    assert_eq!(pattern.len(), 20);
    assert_eq!(pattern.push(LEDSelect::WHITE), Err(LEDSelect::WHITE));
    assert_eq!(pattern.len(), 20);
    assert_eq!(pattern.get(19), Some(LEDSelect::WHITE));
    assert_eq!(pattern.get(18), Some(LEDSelect::YELLOW));
}

#[test]
fn display_text_holds_up_to_ten_bytes() {
    assert_eq!(TEXT_CAPACITY, 10);
    let text = DisplayText::try_from_str("meowbox").unwrap();
    assert_eq!(text.as_str(), "meowbox");
    let full = DisplayText::try_from_str("0123456789").unwrap();
    assert_eq!(full.as_str(), "0123456789");
    let empty = DisplayText::try_from_str("").unwrap();
    assert_eq!(empty.as_str(), "");
    assert!(matches!(DisplayText::try_from_str("0123456789a"), Err(TextTooLong)));
}

#[test]
fn display_text_counts_bytes_not_characters() {
    // five characters of two bytes each fit, six do not
    assert_eq!(DisplayText::try_from_str("äöüäö").unwrap().as_str(), "äöüäö");
    assert!(matches!(DisplayText::try_from_str("äöüäöü"), Err(TextTooLong)));
}

#[test]
fn default_rotation_is_five_times_round_the_ring() {
    let params = LEDRotationParams::default();
    assert_eq!(params.cycles, 5);
    assert_eq!(params.interval, 80);
    assert_eq!(params.selection.len(), 5);
    for (i, led) in ring().iter().enumerate() {
        assert_eq!(params.selection.get(i), Some(*led));
    }
}

#[test]
fn all_leds_off_drives_the_ring_low_in_order() {
    let plan = all_leds_off();
    assert_eq!(plan.len(), 5);
    for (i, led) in ring().iter().enumerate() {
        assert!(matches!(plan[i], Action::Drive(l, PinOp::SetLow) if l == led.line()));
    }
}

#[test]
fn simple_tone_is_high_wait_low() {
    let plan = execute_sequence(&BuzzerSequence::SimpleTone200ms);
    assert_eq!(plan.len(), 3);
    assert!(matches!(plan[0], Action::Drive(OutputLine::Buzzer, PinOp::SetHigh)));
    assert!(matches!(plan[1], Action::DelayMillis(200)));
    assert!(matches!(plan[2], Action::Drive(OutputLine::Buzzer, PinOp::SetLow)));
}

fn check_burst(sequence: BuzzerSequence, toggles: usize, period: u64) {
    let plan = execute_sequence(&sequence);
    assert_eq!(plan.len(), 2 * toggles + 1);
    let mut waited = 0;
    for i in 0..toggles {
        assert!(matches!(plan[2 * i], Action::Drive(OutputLine::Buzzer, PinOp::Toggle)));
        match plan[2 * i + 1] {
            Action::DelayMillis(ms) => {
                assert_eq!(ms, period);
                waited += ms;
            }
            _ => panic!("expected a delay"),
        }
    }
    assert!(matches!(plan[2 * toggles], Action::Drive(OutputLine::Buzzer, PinOp::SetLow)));
    assert_eq!(waited, sequence.duration_millis());
}

#[test]
fn intermittent_patterns_toggle_and_end_low() {
    check_burst(BuzzerSequence::Intermittent10ms200ms, 20, 10);
    check_burst(BuzzerSequence::Intermittent5ms2000ms, 400, 5);
}

#[test]
fn pattern_durations() {
    assert_eq!(BuzzerSequence::SimpleTone200ms.duration_millis(), 200);
    assert_eq!(BuzzerSequence::Intermittent10ms200ms.duration_millis(), 200);
    assert_eq!(BuzzerSequence::Intermittent5ms2000ms.duration_millis(), 2000);
}

fn publications(plan: &[Action]) -> usize {
    plan.iter()
        .filter(|a| matches!(a, Action::SignalBuzzer(_) | Action::SignalLedRotation(_)))
        .count()
}

fn check_bracket(plan: &[Action], led: OutputLine, hold: u64) {
    assert_eq!(plan.len(), 4);
    assert!(matches!(plan[0], Action::Drive(l, PinOp::SetLow) if l == led));
    assert!(matches!(plan[2], Action::DelayMillis(ms) if ms == hold));
    assert!(matches!(plan[3], Action::Drive(l, PinOp::SetHigh) if l == led));
    assert_eq!(publications(plan), 1);
}

#[test]
fn button_presses_bracket_one_buzzer_command() {
    let left = left_button_event(OutputLine::LeftButtonLed);
    check_bracket(&left, OutputLine::LeftButtonLed, 200);
    assert!(matches!(left[1], Action::SignalBuzzer(BuzzerSequence::Intermittent10ms200ms)));
    let right = right_button_event(OutputLine::RightButtonLed);
    check_bracket(&right, OutputLine::RightButtonLed, 200);
    assert!(matches!(right[1], Action::SignalBuzzer(BuzzerSequence::SimpleTone200ms)));
}

#[test]
fn rotary_switch_presses_publish_exactly_one_command() {
    let left = rotary_switch_left_event(OutputLine::LeftButtonLed);
    check_bracket(&left, OutputLine::LeftButtonLed, 200);
    match &left[1] {
        Action::SignalLedRotation(params) => {
            assert_eq!(params.cycles, 5);
            assert_eq!(params.interval, 80);
            assert_eq!(params.selection.len(), 5);
            assert_eq!(params.selection.get(4), Some(LEDSelect::WHITE));
        }
        _ => panic!("expected a rotation command"),
    }
    let right = rotary_switch_right_event(OutputLine::RightButtonLed);
    check_bracket(&right, OutputLine::RightButtonLed, 200);
    assert!(matches!(right[1], Action::SignalBuzzer(BuzzerSequence::SimpleTone200ms)));
}

fn drain(params: LEDRotationParams) -> Vec<Vec<Action>> {
    let mut run = led_rotation(params);
    let mut turns = Vec::new();
    while let Some(turn) = run.next_turn() {
        turns.push(turn);
        assert!(turns.len() < 1000);
    }
    assert!(run.next_turn().is_none());
    turns
}

#[test]
fn rotation_overlaps_neighbouring_leds() {
    let params = LEDRotationParams {
        selection: pattern_of(&[LEDSelect::RED, LEDSelect::BLUE]),
        cycles: 2,
        interval: 81,
    };
    let turns = drain(params);
    assert_eq!(turns.len(), 6);
    assert_eq!(turns[0].len(), 5);
    assert_eq!(turns[5].len(), 5);
    // first step: nothing to switch off yet
    assert_eq!(turns[1].len(), 3);
    assert!(matches!(turns[1][0], Action::Drive(OutputLine::RedLed, PinOp::SetHigh)));
    assert!(matches!(turns[1][1], Action::DelayMillis(40)));
    assert!(matches!(turns[1][2], Action::DelayMillis(40)));
    let expected = [
        (OutputLine::BlueLed, OutputLine::RedLed),
        (OutputLine::RedLed, OutputLine::BlueLed),
        (OutputLine::BlueLed, OutputLine::RedLed),
    ];
    for (i, (on, off)) in expected.iter().enumerate() {
        let step = &turns[2 + i];
        assert_eq!(step.len(), 4);
        assert!(matches!(step[0], Action::Drive(l, PinOp::SetHigh) if l == *on));
        assert!(matches!(step[1], Action::DelayMillis(40)));
        assert!(matches!(step[2], Action::Drive(l, PinOp::SetLow) if l == *off));
        assert!(matches!(step[3], Action::DelayMillis(40)));
    }
}

#[test]
fn default_rotation_has_twenty_five_steps() {
    let turns = drain(LEDRotationParams::default());
    assert_eq!(turns.len(), 27);
    assert!(matches!(turns[25][0], Action::Drive(OutputLine::WhiteLed, PinOp::SetHigh)));
    assert!(matches!(turns[25][2], Action::Drive(OutputLine::YellowLed, PinOp::SetLow)));
    assert!(matches!(turns[6][0], Action::Drive(OutputLine::RedLed, PinOp::SetHigh)));
    assert!(matches!(turns[6][2], Action::Drive(OutputLine::WhiteLed, PinOp::SetLow)));
}

#[test]
fn rotation_without_steps_only_switches_off() {
    let no_cycles =
        LEDRotationParams { selection: pattern_of(&[LEDSelect::RED]), cycles: 0, interval: 80 };
    assert_eq!(drain(no_cycles).len(), 2);
    let no_leds = LEDRotationParams { selection: LedPattern::new(), cycles: 3, interval: 80 };
    assert_eq!(drain(no_leds).len(), 2);
}
