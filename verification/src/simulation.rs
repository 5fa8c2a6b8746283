//! Performing actions on the registry itself.
//!
//! The program round this crate performs a task's actions on real pins. The
//! functions here perform them on the handles in a [`HardwareContext`], which
//! shows where a list of actions leaves the lines, and what happens to a task
//! that meets a slot that is held or was never filled.

use vstd::prelude::*;
use crate::hardware::{HardwareContext, Output, OutputLine, SlotError, SlotView, TaskId};
use crate::tasks::leds::all_off_plan;
use crate::tasks::{plan_view, Action, ActionView, LEDSelect};

verus! {

/// The slots of all output lines.
pub type Outputs = Map<OutputLine, SlotView<Output>>;

impl HardwareContext {
    /// The slots of all output lines, by line.
    pub open spec fn outputs(self) -> Outputs {
        Map::new(|line: OutputLine| true, |line: OutputLine| self.output(line))
    }
}

/// How performing one action ends: only driving a line can fail.
pub open spec fn action_result(outputs: Outputs, action: ActionView) -> Result<(), SlotError> {
    match action {
        ActionView::Drive(line, _) => outputs[line].drive_result(),
        _ => Ok(()),
    }
}

/// The output slots after one action was performed, or was refused.
pub open spec fn after_action(outputs: Outputs, action: ActionView) -> Outputs {
    match action {
        ActionView::Drive(line, op) => outputs.insert(line, outputs[line].after_drive(op)),
        _ => outputs,
    }
}

/// How many actions of a list are performed before one is refused: all of
/// them if none is.
pub open spec fn performed(outputs: Outputs, plan: Seq<ActionView>) -> nat
    decreases plan.len(),
{
    if plan.len() == 0 || action_result(outputs, plan[0]) is Err {
        0
    } else {
        1 + performed(after_action(outputs, plan[0]), plan.subrange(1, plan.len() as int))
    }
}

/// The output slots after a list of actions was performed as far as it went.
pub open spec fn after_plan(outputs: Outputs, plan: Seq<ActionView>) -> Outputs
    decreases plan.len(),
{
    if plan.len() == 0 || action_result(outputs, plan[0]) is Err {
        outputs
    } else {
        after_plan(after_action(outputs, plan[0]), plan.subrange(1, plan.len() as int))
    }
}

/// How performing a list of actions ends: with the refusal that stopped it,
/// or well.
pub open spec fn plan_result(outputs: Outputs, plan: Seq<ActionView>) -> Result<(), SlotError>
    decreases plan.len(),
{
    if plan.len() == 0 {
        Ok(())
    } else if action_result(outputs, plan[0]) is Err {
        action_result(outputs, plan[0])
    } else {
        plan_result(after_action(outputs, plan[0]), plan.subrange(1, plan.len() as int))
    }
}

/// Performs one action for `task`. Driving a line is one whole access to its
/// slot; every other action leaves the registry alone.
pub fn perform(hw: &mut HardwareContext, task: TaskId, action: &Action) -> (r: Result<
    (),
    SlotError,
>)
    ensures
        r == action_result(old(hw).outputs(), action@),
        final(hw).outputs() == after_action(old(hw).outputs(), action@),
        forall|line: crate::hardware::InputLine|
            (#[trigger] final(hw).input(line)) == old(hw).input(line),
{
    match action {
        Action::Drive(line, op) => {
            let r = hw.drive(task, *line, *op);
            assert(hw.outputs() =~= after_action(old(hw).outputs(), action@));
            r
        },
        _ => Ok(()),
    }
}

/// Performs a list of actions for `task`, first to last, and stops at the
/// first that is refused.
pub fn run(hw: &mut HardwareContext, task: TaskId, plan: &Vec<Action>) -> (r: Result<
    (),
    SlotError,
>)
    ensures
        r == plan_result(old(hw).outputs(), plan_view(plan@)),
        final(hw).outputs() == after_plan(old(hw).outputs(), plan_view(plan@)),
        forall|line: crate::hardware::InputLine|
            (#[trigger] final(hw).input(line)) == old(hw).input(line),
{
    let ghost all = plan_view(plan@);
    let ghost start = hw.outputs();
    let mut i: usize = 0;
    assert(all.subrange(0, all.len() as int) =~= all);
    while i < plan.len()
        invariant
            i <= plan.len(),
            all == plan_view(plan@),
            all.len() == plan@.len(),
            start == old(hw).outputs(),
            plan_result(start, all) == plan_result(hw.outputs(), all.subrange(i as int, all.len() as int)),
            after_plan(start, all) == after_plan(hw.outputs(), all.subrange(i as int, all.len() as int)),
            forall|line: crate::hardware::InputLine|
                (#[trigger] hw.input(line)) == old(hw).input(line),
        decreases plan.len() - i,
    {
        let ghost rest = all.subrange(i as int, all.len() as int);
        assert(rest[0] == plan@[i as int]@);
        assert(rest.subrange(1, rest.len() as int) =~= all.subrange(i + 1, all.len() as int));
        let ghost before = hw.outputs();
        let r = perform(hw, task, &plan[i]);
        if r.is_err() {
            assert(hw.outputs() =~= before);
            assert(plan_result(before, rest) == r);
            assert(after_plan(before, rest) == before);
            return r;
        }
        i = i + 1;
    }
    assert(all.subrange(i as int, all.len() as int).len() == 0);
    Ok(())
}

/// Every status LED has its handle and is held by nobody.
pub open spec fn ring_ready(outputs: Outputs) -> bool {
    forall|led: LEDSelect| (#[trigger] outputs[led.output_line()]).drive_result() is Ok
}

/// Where the five status LEDs are ready, switching them all off goes through
/// and leaves each of them low and free; every other line is as before.
pub proof fn lemma_all_off_darkens_ring(outputs: Outputs)
    requires
        ring_ready(outputs),
    ensures
        plan_result(outputs, all_off_plan()) is Ok,
        performed(outputs, all_off_plan()) == 5,
        forall|led: LEDSelect|
            (#[trigger] after_plan(outputs, all_off_plan())[led.output_line()]).level() == Some(
                false,
            ),
        ring_ready(after_plan(outputs, all_off_plan())),
        after_plan(outputs, all_off_plan())[OutputLine::Buzzer] == outputs[OutputLine::Buzzer],
        after_plan(outputs, all_off_plan())[OutputLine::LeftButtonLed]
            == outputs[OutputLine::LeftButtonLed],
        after_plan(outputs, all_off_plan())[OutputLine::RightButtonLed]
            == outputs[OutputLine::RightButtonLed],
{
    let p0 = all_off_plan();
    let p1 = p0.subrange(1, 5);
    let p2 = p1.subrange(1, 4);
    let p3 = p2.subrange(1, 3);
    let p4 = p3.subrange(1, 2);
    let p5 = p4.subrange(1, 1);
    let o0 = outputs;
    let o1 = after_action(o0, p0[0]);
    let o2 = after_action(o1, p1[0]);
    let o3 = after_action(o2, p2[0]);
    let o4 = after_action(o3, p3[0]);
    let o5 = after_action(o4, p4[0]);
    assert(o0[LEDSelect::RED.output_line()].drive_result() is Ok);
    assert(o0[LEDSelect::GREEN.output_line()].drive_result() is Ok);
    assert(o0[LEDSelect::BLUE.output_line()].drive_result() is Ok);
    assert(o0[LEDSelect::YELLOW.output_line()].drive_result() is Ok);
    assert(o0[LEDSelect::WHITE.output_line()].drive_result() is Ok);
    assert(p5.len() == 0);
    assert(after_plan(o5, p5) == o5 && plan_result(o5, p5) is Ok && performed(o5, p5) == 0);
    assert(after_plan(o4, p4) == o5 && plan_result(o4, p4) is Ok && performed(o4, p4) == 1);
    assert(after_plan(o3, p3) == o5 && plan_result(o3, p3) is Ok && performed(o3, p3) == 2);
    assert(after_plan(o2, p2) == o5 && plan_result(o2, p2) is Ok && performed(o2, p2) == 3);
    assert(after_plan(o1, p1) == o5 && plan_result(o1, p1) is Ok && performed(o1, p1) == 4);
    assert(after_plan(o0, p0) == o5 && plan_result(o0, p0) is Ok && performed(o0, p0) == 5);
    assert forall|led: LEDSelect| (#[trigger] o5[led.output_line()]).level() == Some(false) by {}
    assert forall|led: LEDSelect| (#[trigger] o5[led.output_line()]).drive_result() is Ok by {}
}

/// A list of actions stops at the first line whose slot is held or empty:
/// the task is told which of the two it met, nothing of that action or of
/// the ones behind it is done, and what the actions before it did stays
/// done.
pub proof fn lemma_refusal_stops_the_plan(outputs: Outputs, done: Seq<ActionView>, rest: Seq<ActionView>)
    requires
        plan_result(outputs, done) is Ok,
        rest.len() > 0,
        action_result(after_plan(outputs, done), rest[0]) is Err,
    ensures
        plan_result(outputs, done + rest) == action_result(after_plan(outputs, done), rest[0]),
        after_plan(outputs, done + rest) == after_plan(outputs, done),
        performed(outputs, done + rest) == done.len(),
        rest[0] matches ActionView::Drive(line, _) && (plan_result(outputs, done + rest) == Err::<
            (),
            SlotError,
        >(SlotError::Busy) <==> after_plan(outputs, done)[line].holder is Some),
    decreases done.len(),
{
    let whole = done + rest;
    if done.len() == 0 {
        assert(whole =~= rest);
    } else {
        let tail = done.subrange(1, done.len() as int);
        assert(whole[0] == done[0]);
        assert(whole.subrange(1, whole.len() as int) =~= tail + rest);
        lemma_refusal_stops_the_plan(after_action(outputs, done[0]), tail, rest);
    }
}

} // verus!
