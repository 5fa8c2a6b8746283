use meowbox::hardware::{OutputLine, PinOp};
use meowbox::tasks::rotary::{
    indicate, left_rotary_rotation_watcher, right_rotary_rotation_watcher, Rotation,
    RotationWatcher, Side, SAMPLE_PERIOD_MICROS, STEP_THRESHOLD,
};
use meowbox::tasks::Action;

/// The line levels (a_low, b_low) of a clockwise turn, starting after (false, false).
const CLOCKWISE: [(bool, bool); 4] = [(false, true), (true, true), (true, false), (false, false)];
const ANTICLOCKWISE: [(bool, bool); 4] =
    [(true, false), (true, true), (false, true), (false, false)];

fn is_pause_only(plan: &[Action]) -> bool {
    plan.len() == 1 && matches!(plan[0], Action::DelayMicros(1000))
}

fn is_pair(plan: &[Action], on: OutputLine, off: OutputLine) -> bool {
    plan.len() == 3
        && matches!(plan[0], Action::Drive(l, PinOp::SetHigh) if l == on)
        && matches!(plan[1], Action::Drive(l, PinOp::SetLow) if l == off)
        && matches!(plan[2], Action::DelayMicros(1000))
}

#[test]
fn constants_of_the_watchers() {
    assert_eq!(STEP_THRESHOLD, 4);
    assert_eq!(SAMPLE_PERIOD_MICROS, 1000);
}

#[test]
fn indicate_lights_the_pair_of_the_side() {
    assert!(is_pair(
        &indicate(Side::Right, Rotation::Clockwise),
        OutputLine::BlueLed,
        OutputLine::GreenLed
    ));
    assert!(is_pair(
        &indicate(Side::Right, Rotation::Anticlockwise),
        OutputLine::GreenLed,
        OutputLine::BlueLed
    ));
    assert!(is_pair(
        &indicate(Side::Left, Rotation::Clockwise),
        OutputLine::YellowLed,
        OutputLine::RedLed
    ));
    assert!(is_pair(
        &indicate(Side::Left, Rotation::Anticlockwise),
        OutputLine::RedLed,
        OutputLine::YellowLed
    ));
    assert!(is_pause_only(&indicate(Side::Left, Rotation::Still)));
    assert!(is_pause_only(&indicate(Side::Right, Rotation::Still)));
}

#[test]
fn four_clockwise_micro_steps_make_one_step() {
    let mut watcher = right_rotary_rotation_watcher();
    for (i, (a_low, b_low)) in CLOCKWISE.iter().enumerate() {
        let plan = watcher.sample(*a_low, *b_low);
        if i < 3 {
            assert!(is_pause_only(&plan), "sample {}", i);
        } else {
            assert!(is_pair(&plan, OutputLine::BlueLed, OutputLine::GreenLed));
        }
    }
    // the count starts again
    for (i, (a_low, b_low)) in CLOCKWISE.iter().enumerate() {
        let plan = watcher.sample(*a_low, *b_low);
        assert_eq!(is_pause_only(&plan), i < 3);
    }
}

#[test]
fn four_anticlockwise_micro_steps_make_one_step() {
    let mut watcher = left_rotary_rotation_watcher();
    for (i, (a_low, b_low)) in ANTICLOCKWISE.iter().enumerate() {
        let plan = watcher.sample(*a_low, *b_low);
        if i < 3 {
            assert!(is_pause_only(&plan), "sample {}", i);
        } else {
            assert!(is_pair(&plan, OutputLine::RedLed, OutputLine::YellowLed));
        }
    }
}

#[test]
fn unchanged_lines_and_skips_leave_the_leds_alone() {
    let mut watcher = RotationWatcher::new(Side::Right);
    for _ in 0..10 {
        assert!(is_pause_only(&watcher.sample(false, false)));
    }
    // both lines at once, there and back, many times
    for _ in 0..10 {
        assert!(is_pause_only(&watcher.sample(true, true)));
        assert!(is_pause_only(&watcher.sample(false, false)));
    }
}

#[test]
fn bounce_cancels_out() {
    let mut watcher = RotationWatcher::new(Side::Right);
    // three steps forward, one back, then two forward: the fourth net step reports
    let samples = [
        (false, true),
        (true, true),
        (true, false),
        (true, true),
        (true, false),
    ];
    for (a_low, b_low) in samples {
        assert!(is_pause_only(&watcher.sample(a_low, b_low)));
    }
    assert!(is_pair(
        &watcher.sample(false, false),
        OutputLine::BlueLed,
        OutputLine::GreenLed
    ));
}
