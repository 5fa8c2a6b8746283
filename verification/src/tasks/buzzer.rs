//! The tone patterns of the buzzer, spelled out as operations on its line.

use vstd::prelude::*;
use crate::hardware::{OutputLine, PinOp};
use crate::tasks::{lemma_plan_view_push, plan_view, Action, ActionView, BuzzerSequence};

verus! {

/// `count` times: switch the line over, then wait `period` milliseconds.
pub open spec fn toggle_burst(line: OutputLine, count: nat, period: u64) -> Seq<ActionView> {
    Seq::new(
        2 * count,
        |i: int|
            if i % 2 == 0 {
                ActionView::Drive(line, PinOp::Toggle)
            } else {
                ActionView::DelayMillis(period)
            },
    )
}

/// What the buzzer task does for a tone pattern. Every pattern ends with the
/// buzzer low.
pub open spec fn sequence_plan(sequence: BuzzerSequence) -> Seq<ActionView> {
    match sequence {
        BuzzerSequence::SimpleTone200ms => seq![
            ActionView::Drive(OutputLine::Buzzer, PinOp::SetHigh),
            ActionView::DelayMillis(200),
            ActionView::Drive(OutputLine::Buzzer, PinOp::SetLow),
        ],
        BuzzerSequence::Intermittent10ms200ms => toggle_burst(OutputLine::Buzzer, 20, 10).push(
            ActionView::Drive(OutputLine::Buzzer, PinOp::SetLow),
        ),
        BuzzerSequence::Intermittent5ms2000ms => toggle_burst(OutputLine::Buzzer, 400, 5).push(
            ActionView::Drive(OutputLine::Buzzer, PinOp::SetLow),
        ),
    }
}

/// The milliseconds that a list of actions spends waiting.
pub open spec fn waiting_millis(plan: Seq<ActionView>) -> int
    decreases plan.len(),
{
    if plan.len() == 0 {
        0
    } else {
        waiting_millis(plan.drop_last()) + match plan.last() {
            ActionView::DelayMillis(ms) => ms as int,
            _ => 0,
        }
    }
}

impl BuzzerSequence {
    /// How long the pattern lasts, in milliseconds.
    pub open spec fn spec_duration_millis(self) -> u64 {
        match self {
            BuzzerSequence::SimpleTone200ms => 200,
            BuzzerSequence::Intermittent10ms200ms => 200,
            BuzzerSequence::Intermittent5ms2000ms => 2000,
        }
    }

    /// How long the pattern lasts, in milliseconds.
    pub fn duration_millis(self) -> (ms: u64)
        ensures
            ms == self.spec_duration_millis(),
    {
        match self {
            BuzzerSequence::SimpleTone200ms => 200,
            BuzzerSequence::Intermittent10ms200ms => 200,
            BuzzerSequence::Intermittent5ms2000ms => 2000,
        }
    }
}

/// Appends `count` rounds of switching the line over and waiting.
fn push_toggle_burst(plan: &mut Vec<Action>, line: OutputLine, count: u32, period: u64)
    requires
        old(plan)@.len() + 2 * count <= usize::MAX,
    ensures
        plan_view(final(plan)@) == plan_view(old(plan)@) + toggle_burst(line, count as nat, period),
{
    let ghost before = plan_view(plan@);
    let mut done: u32 = 0;
    while done < count
        invariant
            done <= count,
            plan_view(plan@) == before + toggle_burst(line, done as nat, period),
        decreases count - done,
    {
        proof {
            lemma_plan_view_push(plan@, Action::Drive(line, PinOp::Toggle));
            lemma_plan_view_push(
                plan@.push(Action::Drive(line, PinOp::Toggle)),
                Action::DelayMillis(period),
            );
        }
        plan.push(Action::Drive(line, PinOp::Toggle));
        plan.push(Action::DelayMillis(period));
        done = done + 1;
        assert(plan_view(plan@) =~= before + toggle_burst(line, done as nat, period));
    }
    assert(before + toggle_burst(line, 0, period) =~= before);
}

/// What the buzzer task does for one tone pattern that it took from its
/// mailbox.
pub fn execute_sequence(sequence: &BuzzerSequence) -> (plan: Vec<Action>)
    ensures
        plan_view(plan@) == sequence_plan(*sequence),
{
    let mut plan: Vec<Action> = Vec::new();
    assert(plan_view(plan@) =~= Seq::<ActionView>::empty());
    match sequence {
        BuzzerSequence::SimpleTone200ms => {
            plan.push(Action::Drive(OutputLine::Buzzer, PinOp::SetHigh));
            plan.push(Action::DelayMillis(200));
        },
        BuzzerSequence::Intermittent10ms200ms => {
            push_toggle_burst(&mut plan, OutputLine::Buzzer, 20, 10);
        },
        BuzzerSequence::Intermittent5ms2000ms => {
            push_toggle_burst(&mut plan, OutputLine::Buzzer, 400, 5);
        },
    }
    proof {
        lemma_plan_view_push(plan@, Action::Drive(OutputLine::Buzzer, PinOp::SetLow));
    }
    plan.push(Action::Drive(OutputLine::Buzzer, PinOp::SetLow));
    assert(plan_view(plan@) =~= sequence_plan(*sequence));
    plan
}

/// A burst of `count` rounds waits `count` times its period.
pub proof fn lemma_burst_waits(line: OutputLine, count: nat, period: u64)
    ensures
        waiting_millis(toggle_burst(line, count, period)) == count * period,
    decreases count,
{
    let burst = toggle_burst(line, count, period);
    if count > 0 {
        let shorter = toggle_burst(line, (count - 1) as nat, period);
        assert(burst.drop_last().drop_last() =~= shorter);
        assert(burst.last() == ActionView::DelayMillis(period));
        assert(burst.drop_last().last() == ActionView::Drive(line, PinOp::Toggle));
        lemma_burst_waits(line, (count - 1) as nat, period);
        let inner = burst.drop_last();
        assert(inner.len() > 0);
        assert(waiting_millis(inner) == waiting_millis(inner.drop_last()) + 0);
        assert(burst.len() > 0);
        assert(waiting_millis(burst) == waiting_millis(inner) + period);
        assert((count - 1) * period + period == count * period) by (nonlinear_arith);
    } else {
        assert(burst.len() == 0);
        assert(count * period == 0) by (nonlinear_arith)
            requires
                count == 0,
        ;
    }
}

/// Every tone pattern takes as long as its name says: the waits of what the
/// buzzer task does for it add up to the pattern's duration. And every
/// pattern leaves the buzzer low.
pub proof fn lemma_sequence_takes_its_duration(sequence: BuzzerSequence)
    ensures
        waiting_millis(sequence_plan(sequence)) == sequence.spec_duration_millis(),
        sequence_plan(sequence).last() == ActionView::Drive(OutputLine::Buzzer, PinOp::SetLow),
{
    let plan = sequence_plan(sequence);
    match sequence {
        BuzzerSequence::SimpleTone200ms => {
            let p2 = plan.drop_last();
            let p1 = p2.drop_last();
            let p0 = p1.drop_last();
            assert(p0.len() == 0);
            assert(waiting_millis(p0) == 0);
            assert(p1.last() == plan[0]);
            assert(waiting_millis(p1) == 0);
            assert(p2.last() == plan[1]);
            assert(waiting_millis(p2) == 200);
            assert(plan.last() == plan[2]);
        },
        BuzzerSequence::Intermittent10ms200ms => {
            lemma_burst_waits(OutputLine::Buzzer, 20, 10);
            assert(plan.drop_last() =~= toggle_burst(OutputLine::Buzzer, 20, 10));
        },
        BuzzerSequence::Intermittent5ms2000ms => {
            lemma_burst_waits(OutputLine::Buzzer, 400, 5);
            assert(plan.drop_last() =~= toggle_burst(OutputLine::Buzzer, 400, 5));
        },
    }
}

} // verus!
