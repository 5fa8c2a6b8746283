//! The registry of shared hardware lines.
//!
//! Every output or input that more than one task reaches sits in a slot of its
//! own. A task acquires the slot, does one thing to the line behind it, and
//! releases the slot again. A slot that nobody has filled yet answers with
//! [`SlotError::Uninitialized`]; a slot that another task holds answers with
//! [`SlotError::Busy`], and the task has to suspend and ask again.

use vstd::prelude::*;

verus! {

/// A digital output line: a LED or the buzzer.
#[derive(Copy, Clone, Debug, PartialEq, Eq, Structural)]
pub struct Output {
    /// Whether the line is driven high.
    pub high: bool,
}

/// What a task does to an output line while it holds the line's slot.
#[derive(Copy, Clone, Debug, PartialEq, Eq, Structural)]
pub enum PinOp {
    SetHigh,
    SetLow,
    Toggle,
}

/// The level of a line after `op`, when it was at `high` before.
pub open spec fn level_after(high: bool, op: PinOp) -> bool {
    match op {
        PinOp::SetHigh => true,
        PinOp::SetLow => false,
        PinOp::Toggle => !high,
    }
}

impl View for Output {
    type V = bool;

    open spec fn view(&self) -> bool {
        self.high
    }
}

impl Output {
    /// A line driven to the given level.
    pub fn new(high: bool) -> (o: Self)
        ensures
            o@ == high,
    {
        Output { high }
    }

    pub fn set_high(&mut self)
        ensures
            final(self)@,
    {
        self.high = true;
    }

    pub fn set_low(&mut self)
        ensures
            !final(self)@,
    {
        self.high = false;
    }

    pub fn toggle(&mut self)
        ensures
            final(self)@ == !old(self)@,
    {
        self.high = !self.high;
    }

    pub fn is_set_high(&self) -> (b: bool)
        ensures
            b == self@,
    {
        self.high
    }

    pub fn is_set_low(&self) -> (b: bool)
        ensures
            b == !self@,
    {
        !self.high
    }

    /// Applies one operation to the line.
    pub fn apply(&mut self, op: PinOp)
        ensures
            final(self)@ == level_after(old(self)@, op),
    {
        match op {
            PinOp::SetHigh => self.set_high(),
            PinOp::SetLow => self.set_low(),
            PinOp::Toggle => self.toggle(),
        }
    }
}

/// A digital input line: a button, a rotary switch. Tasks only sample it.
#[derive(Copy, Clone, Debug, PartialEq, Eq, Structural)]
pub struct Input {
    /// Whether the line reads high.
    pub high: bool,
}

impl View for Input {
    type V = bool;

    open spec fn view(&self) -> bool {
        self.high
    }
}

impl Input {
    /// A line that reads the given level.
    pub fn new(high: bool) -> (i: Self)
        ensures
            i@ == high,
    {
        Input { high }
    }

    pub fn is_high(&self) -> (b: bool)
        ensures
            b == self@,
    {
        self.high
    }

    pub fn is_low(&self) -> (b: bool)
        ensures
            b == !self@,
    {
        !self.high
    }
}

/// The name of a task, as far as the slots need it: to tell the holder of a
/// slot from everybody else.
#[derive(Copy, Clone, Debug, PartialEq, Eq, Structural)]
pub struct TaskId(pub u32);

/// Why a slot turned a task away.
#[derive(Copy, Clone, Debug, PartialEq, Eq, Structural)]
pub enum SlotError {
    /// Nothing was put into the slot yet. This is a fault in the order of
    /// start-up, and the caller must not go on.
    Uninitialized,
    /// Another task (or this one, a second time) holds the slot. The caller
    /// suspends and asks again.
    Busy,
    /// The caller does not hold the slot it wants to use or release.
    NotHolder,
}

/// A container for one hardware handle that one task at a time may hold.
pub struct SharedSlot<T> {
    handle: Option<T>,
    holder: Option<TaskId>,
}

/// What a slot is, seen from outside: what it holds and who holds it.
pub struct SlotView<T> {
    pub handle: Option<T>,
    pub holder: Option<TaskId>,
}

impl<T> View for SharedSlot<T> {
    type V = SlotView<T>;

    closed spec fn view(&self) -> SlotView<T> {
        SlotView { handle: self.handle, holder: self.holder }
    }
}

impl<T> SlotView<T> {
    /// Whether `task` may read or change the handle now.
    pub open spec fn grants(self, task: TaskId) -> bool {
        self.holder == Some(task)
    }

    /// The slot after `task` asked for it.
    pub open spec fn acquired(self, task: TaskId) -> Self {
        if self.holder is None {
            SlotView { handle: self.handle, holder: Some(task) }
        } else {
            self
        }
    }

    /// How start-up's access ends on this slot.
    pub open spec fn fill_result(self) -> Result<(), SlotError> {
        if self.holder is Some {
            Err(SlotError::Busy)
        } else {
            Ok(())
        }
    }

    /// The slot after start-up tried to put `handle` into it.
    pub open spec fn filled(self, handle: T) -> Self {
        if self.holder is None {
            SlotView { handle: Some(handle), holder: None }
        } else {
            self
        }
    }

    /// The slot after `task` gave it back.
    pub open spec fn released(self, task: TaskId) -> Self {
        if self.grants(task) {
            SlotView { handle: self.handle, holder: None }
        } else {
            self
        }
    }
}

impl<T> SharedSlot<T> {
    /// An empty slot that nobody holds: the state before start-up.
    pub fn new() -> (s: Self)
        ensures
            s@.handle is None,
            s@.holder is None,
    {
        SharedSlot { handle: None, holder: None }
    }

    /// Asks for the slot. It is granted exactly when nobody holds it; the
    /// task then holds it until it calls [`SharedSlot::release`].
    pub fn acquire(&mut self, task: TaskId) -> (r: Result<(), SlotError>)
        ensures
            final(self)@ == old(self)@.acquired(task),
            r is Ok <==> old(self)@.holder is None,
            r is Err ==> r == Err::<(), SlotError>(SlotError::Busy),
            r is Ok ==> final(self)@.grants(task),
    {
        if self.holder.is_none() {
            self.holder = Some(task);
            Ok(())
        } else {
            Err(SlotError::Busy)
        }
    }

    /// Gives the slot back. Only its holder can.
    pub fn release(&mut self, task: TaskId) -> (r: Result<(), SlotError>)
        ensures
            final(self)@ == old(self)@.released(task),
            r is Ok <==> old(self)@.grants(task),
            r is Err ==> r == Err::<(), SlotError>(SlotError::NotHolder),
            r is Ok ==> final(self)@.holder is None,
    {
        if self.held_by(task) {
            self.holder = None;
            Ok(())
        } else {
            Err(SlotError::NotHolder)
        }
    }

    /// Whether `task` holds the slot.
    pub fn held_by(&self, task: TaskId) -> (b: bool)
        ensures
            b == self@.grants(task),
    {
        match self.holder {
            Some(t) => t.0 == task.0,
            None => false,
        }
    }

    /// Whether anybody holds the slot.
    pub fn is_held(&self) -> (b: bool)
        ensures
            b == self@.holder is Some,
    {
        self.holder.is_some()
    }

    /// Whether a handle was put into the slot.
    pub fn is_initialized(&self) -> (b: bool)
        ensures
            b == self@.handle is Some,
    {
        self.handle.is_some()
    }

    /// Puts a handle into the slot, as start-up does. The task must hold the
    /// slot; what was in it before comes back.
    pub fn install(&mut self, task: TaskId, handle: T) -> (r: Result<Option<T>, SlotError>)
        ensures
            old(self)@.grants(task) ==> r == Ok::<Option<T>, SlotError>(old(self)@.handle)
                && final(self)@ == (SlotView { handle: Some(handle), holder: old(self)@.holder }),
            !old(self)@.grants(task) ==> r == Err::<Option<T>, SlotError>(SlotError::NotHolder)
                && final(self)@ == old(self)@,
    {
        if self.held_by(task) {
            let before = self.handle.take();
            self.handle = Some(handle);
            Ok(before)
        } else {
            Err(SlotError::NotHolder)
        }
    }

    /// What is in the slot, for an observer that changes nothing.
    pub fn inspect(&self) -> (r: Option<&T>)
        ensures
            r is Some <==> self@.handle is Some,
            r matches Some(h) ==> *h == self@.handle->0,
    {
        self.handle.as_ref()
    }

    /// Start-up's one access to the slot: acquire, put the handle in, release.
    pub fn fill(&mut self, task: TaskId, handle: T) -> (r: Result<(), SlotError>)
        ensures
            r == old(self)@.fill_result(),
            final(self)@ == old(self)@.filled(handle),
    {
        if self.acquire(task).is_err() {
            return Err(SlotError::Busy);
        }
        let before = self.install(task, handle);
        let freed = self.release(task);
        assert(before is Ok && freed is Ok);
        Ok(())
    }

    /// The handle, for the task that holds the slot.
    pub fn get(&self, task: TaskId) -> (r: Result<&T, SlotError>)
        ensures
            !self@.grants(task) ==> r == Err::<&T, SlotError>(SlotError::NotHolder),
            self@.grants(task) && self@.handle is None ==> r == Err::<&T, SlotError>(
                SlotError::Uninitialized,
            ),
            self@.grants(task) && self@.handle is Some ==> r == Ok::<&T, SlotError>(
                &self@.handle->0,
            ),
    {
        if !self.held_by(task) {
            Err(SlotError::NotHolder)
        } else {
            match &self.handle {
                Some(h) => Ok(h),
                None => Err(SlotError::Uninitialized),
            }
        }
    }
}

impl SharedSlot<Output> {
    /// Applies `op` to the output in the slot, for the task that holds it.
    pub fn apply(&mut self, task: TaskId, op: PinOp) -> (r: Result<(), SlotError>)
        ensures
            final(self)@ == old(self)@.driven(task, op),
            r == old(self)@.access(task),
    {
        if !self.held_by(task) {
            return Err(SlotError::NotHolder);
        }
        match self.handle {
            Some(mut line) => {
                line.apply(op);
                self.handle = Some(line);
                Ok(())
            },
            None => Err(SlotError::Uninitialized),
        }
    }

    /// One whole access by `task`: acquire, apply `op`, release.
    pub fn drive(&mut self, task: TaskId, op: PinOp) -> (r: Result<(), SlotError>)
        ensures
            r == old(self)@.drive_result(),
            final(self)@ == old(self)@.after_drive(op),
    {
        if self.acquire(task).is_err() {
            return Err(SlotError::Busy);
        }
        let r = self.apply(task, op);
        let freed = self.release(task);
        assert(freed is Ok);
        r
    }
}

impl SharedSlot<Input> {
    /// One whole access by `task`: acquire, read whether the line is low,
    /// release. The slot is left as it was.
    pub fn sample_low(&mut self, task: TaskId) -> (r: Result<bool, SlotError>)
        ensures
            final(self)@ == old(self)@,
            r == old(self)@.sample_result(),
    {
        if self.acquire(task).is_err() {
            return Err(SlotError::Busy);
        }
        let r = match self.get(task) {
            Ok(line) => Ok(line.is_low()),
            Err(e) => Err(e),
        };
        let freed = self.release(task);
        assert(freed is Ok);
        r
    }
}

impl SlotView<Input> {
    /// What a whole sampling access returns on this slot.
    pub open spec fn sample_result(self) -> Result<bool, SlotError> {
        if self.holder is Some {
            Err(SlotError::Busy)
        } else if self.handle is None {
            Err(SlotError::Uninitialized)
        } else {
            Ok(!self.handle->0@)
        }
    }
}

impl SlotView<Output> {
    /// What the holder check and the start-up check say to `task`.
    pub open spec fn access(self, task: TaskId) -> Result<(), SlotError> {
        if !self.grants(task) {
            Err(SlotError::NotHolder)
        } else if self.handle is None {
            Err(SlotError::Uninitialized)
        } else {
            Ok(())
        }
    }

    /// The slot after `task` tried to apply `op` to its output.
    pub open spec fn driven(self, task: TaskId, op: PinOp) -> Self {
        if self.access(task) is Ok {
            SlotView {
                handle: Some(Output { high: level_after(self.handle->0@, op) }),
                holder: self.holder,
            }
        } else {
            self
        }
    }

    /// How a whole access ends on this slot.
    pub open spec fn drive_result(self) -> Result<(), SlotError> {
        if self.holder is Some {
            Err(SlotError::Busy)
        } else if self.handle is None {
            Err(SlotError::Uninitialized)
        } else {
            Ok(())
        }
    }

    /// The slot after a whole access that wanted to apply `op`.
    pub open spec fn after_drive(self, op: PinOp) -> Self {
        if self.drive_result() is Ok {
            SlotView {
                handle: Some(Output { high: level_after(self.handle->0@, op) }),
                holder: self.holder,
            }
        } else {
            self
        }
    }

    /// The level of the output in the slot, where there is one.
    pub open spec fn level(self) -> Option<bool> {
        match self.handle {
            Some(line) => Some(line@),
            None => None,
        }
    }
}

/// The output lines that have a slot in the registry.
#[derive(Copy, Clone, Debug, PartialEq, Eq, Structural)]
pub enum OutputLine {
    RightButtonLed,
    LeftButtonLed,
    Buzzer,
    RedLed,
    GreenLed,
    BlueLed,
    YellowLed,
    WhiteLed,
}

/// The input lines that have a slot in the registry.
#[derive(Copy, Clone, Debug, PartialEq, Eq, Structural)]
pub enum InputLine {
    RightButton,
    LeftButton,
    RotarySwitchLeft,
    RotarySwitchRight,
}

impl OutputLine {
    /// The place of the line's handle in the list that start-up is given.
    pub open spec fn place(self) -> int {
        match self {
            OutputLine::RightButtonLed => 0,
            OutputLine::LeftButtonLed => 1,
            OutputLine::Buzzer => 2,
            OutputLine::RedLed => 3,
            OutputLine::GreenLed => 4,
            OutputLine::BlueLed => 5,
            OutputLine::YellowLed => 6,
            OutputLine::WhiteLed => 7,
        }
    }
}

impl InputLine {
    /// The place of the line's handle in the list that start-up is given.
    pub open spec fn place(self) -> int {
        match self {
            InputLine::RightButton => 0,
            InputLine::LeftButton => 1,
            InputLine::RotarySwitchLeft => 2,
            InputLine::RotarySwitchRight => 3,
        }
    }
}

/// The registry: one slot for each shared line. It is made once at start-up,
/// filled, and then handed to every task.
pub struct HardwareContext {
    pub right_button: SharedSlot<Input>,
    pub left_button: SharedSlot<Input>,
    pub rotary_switch_left: SharedSlot<Input>,
    pub rotary_switch_right: SharedSlot<Input>,
    pub right_button_led: SharedSlot<Output>,
    pub left_button_led: SharedSlot<Output>,
    pub buzzer: SharedSlot<Output>,
    pub red_led: SharedSlot<Output>,
    pub green_led: SharedSlot<Output>,
    pub blue_led: SharedSlot<Output>,
    pub yellow_led: SharedSlot<Output>,
    pub white_led: SharedSlot<Output>,
}

impl HardwareContext {
    /// The slot of an output line.
    pub open spec fn output(self, line: OutputLine) -> SlotView<Output> {
        match line {
            OutputLine::RightButtonLed => self.right_button_led@,
            OutputLine::LeftButtonLed => self.left_button_led@,
            OutputLine::Buzzer => self.buzzer@,
            OutputLine::RedLed => self.red_led@,
            OutputLine::GreenLed => self.green_led@,
            OutputLine::BlueLed => self.blue_led@,
            OutputLine::YellowLed => self.yellow_led@,
            OutputLine::WhiteLed => self.white_led@,
        }
    }

    /// The slot of an input line.
    pub open spec fn input(self, line: InputLine) -> SlotView<Input> {
        match line {
            InputLine::RightButton => self.right_button@,
            InputLine::LeftButton => self.left_button@,
            InputLine::RotarySwitchLeft => self.rotary_switch_left@,
            InputLine::RotarySwitchRight => self.rotary_switch_right@,
        }
    }

    /// Start-up is complete: every slot holds its handle.
    pub open spec fn initialized(self) -> bool {
        &&& forall|line: OutputLine| (#[trigger] self.output(line)).handle is Some
        &&& forall|line: InputLine| (#[trigger] self.input(line)).handle is Some
    }

    /// No task holds any slot.
    pub open spec fn idle(self) -> bool {
        &&& forall|line: OutputLine| (#[trigger] self.output(line)).holder is None
        &&& forall|line: InputLine| (#[trigger] self.input(line)).holder is None
    }

    /// The registry before start-up: every slot empty and free.
    pub fn new() -> (hw: Self)
        ensures
            hw.idle(),
            forall|line: OutputLine| (#[trigger] hw.output(line)).handle is None,
            forall|line: InputLine| (#[trigger] hw.input(line)).handle is None,
    {
        HardwareContext {
            right_button: SharedSlot::new(),
            left_button: SharedSlot::new(),
            rotary_switch_left: SharedSlot::new(),
            rotary_switch_right: SharedSlot::new(),
            right_button_led: SharedSlot::new(),
            left_button_led: SharedSlot::new(),
            buzzer: SharedSlot::new(),
            red_led: SharedSlot::new(),
            green_led: SharedSlot::new(),
            blue_led: SharedSlot::new(),
            yellow_led: SharedSlot::new(),
            white_led: SharedSlot::new(),
        }
    }

    /// Start-up as a whole: a registry in which every slot holds its handle
    /// and nobody holds a slot. `task` is the task that does the filling; the
    /// handles are taken from the two lists, each line's at the line's place.
    pub fn start_up(task: TaskId, outputs: [Output; 8], inputs: [Input; 4]) -> (hw: Self)
        ensures
            hw.initialized(),
            hw.idle(),
            forall|line: OutputLine|
                (#[trigger] hw.output(line)).handle == Some(outputs[line.place()]),
            forall|line: InputLine| (#[trigger] hw.input(line)).handle == Some(inputs[line.place()]),
    {
        let mut hw = HardwareContext::new();
        let _ = hw.install_output(task, OutputLine::RightButtonLed, outputs[0]);
        let _ = hw.install_output(task, OutputLine::LeftButtonLed, outputs[1]);
        let _ = hw.install_output(task, OutputLine::Buzzer, outputs[2]);
        let _ = hw.install_output(task, OutputLine::RedLed, outputs[3]);
        let _ = hw.install_output(task, OutputLine::GreenLed, outputs[4]);
        let _ = hw.install_output(task, OutputLine::BlueLed, outputs[5]);
        let _ = hw.install_output(task, OutputLine::YellowLed, outputs[6]);
        let _ = hw.install_output(task, OutputLine::WhiteLed, outputs[7]);
        let _ = hw.install_input(task, InputLine::RightButton, inputs[0]);
        let _ = hw.install_input(task, InputLine::LeftButton, inputs[1]);
        let _ = hw.install_input(task, InputLine::RotarySwitchLeft, inputs[2]);
        let _ = hw.install_input(task, InputLine::RotarySwitchRight, inputs[3]);
        hw
    }

    /// The slot of an output line, to work on.
    pub fn output_slot(&mut self, line: OutputLine) -> (slot: &mut SharedSlot<Output>)
        ensures
            slot@ == old(self).output(line),
            final(self).output(line) == final(slot)@,
            forall|other: OutputLine|
                other != line ==> (#[trigger] final(self).output(other)) == old(self).output(other),
            forall|other: InputLine| (#[trigger] final(self).input(other)) == old(self).input(other),
    {
        match line {
            OutputLine::RightButtonLed => &mut self.right_button_led,
            OutputLine::LeftButtonLed => &mut self.left_button_led,
            OutputLine::Buzzer => &mut self.buzzer,
            OutputLine::RedLed => &mut self.red_led,
            OutputLine::GreenLed => &mut self.green_led,
            OutputLine::BlueLed => &mut self.blue_led,
            OutputLine::YellowLed => &mut self.yellow_led,
            OutputLine::WhiteLed => &mut self.white_led,
        }
    }

    /// The slot of an input line, to work on.
    pub fn input_slot(&mut self, line: InputLine) -> (slot: &mut SharedSlot<Input>)
        ensures
            slot@ == old(self).input(line),
            final(self).input(line) == final(slot)@,
            forall|other: InputLine|
                other != line ==> (#[trigger] final(self).input(other)) == old(self).input(other),
            forall|other: OutputLine|
                (#[trigger] final(self).output(other)) == old(self).output(other),
    {
        match line {
            InputLine::RightButton => &mut self.right_button,
            InputLine::LeftButton => &mut self.left_button,
            InputLine::RotarySwitchLeft => &mut self.rotary_switch_left,
            InputLine::RotarySwitchRight => &mut self.rotary_switch_right,
        }
    }

    /// The slot of an output line, to look at.
    pub fn output_ref(&self, line: OutputLine) -> (slot: &SharedSlot<Output>)
        ensures
            slot@ == self.output(line),
    {
        match line {
            OutputLine::RightButtonLed => &self.right_button_led,
            OutputLine::LeftButtonLed => &self.left_button_led,
            OutputLine::Buzzer => &self.buzzer,
            OutputLine::RedLed => &self.red_led,
            OutputLine::GreenLed => &self.green_led,
            OutputLine::BlueLed => &self.blue_led,
            OutputLine::YellowLed => &self.yellow_led,
            OutputLine::WhiteLed => &self.white_led,
        }
    }

    /// The level of an output line, for an observer: `None` before start-up
    /// filled its slot.
    pub fn level(&self, line: OutputLine) -> (r: Option<bool>)
        ensures
            r == self.output(line).level(),
    {
        match self.output_ref(line).inspect() {
            Some(out) => Some(out.is_set_high()),
            None => None,
        }
    }

    /// Whether start-up is complete.
    pub fn is_initialized(&self) -> (b: bool)
        ensures
            b == self.initialized(),
    {
        let b = self.right_button.is_initialized() && self.left_button.is_initialized()
            && self.rotary_switch_left.is_initialized()
            && self.rotary_switch_right.is_initialized()
            && self.right_button_led.is_initialized() && self.left_button_led.is_initialized()
            && self.buzzer.is_initialized() && self.red_led.is_initialized()
            && self.green_led.is_initialized() && self.blue_led.is_initialized()
            && self.yellow_led.is_initialized() && self.white_led.is_initialized();
        proof {
            if b {
                assert forall|line: OutputLine| (#[trigger] self.output(line)).handle is Some by {}
                assert forall|line: InputLine| (#[trigger] self.input(line)).handle is Some by {}
            } else {
                if self.right_button@.handle is None {
                    assert(self.input(InputLine::RightButton).handle is None);
                } else if self.left_button@.handle is None {
                    assert(self.input(InputLine::LeftButton).handle is None);
                } else if self.rotary_switch_left@.handle is None {
                    assert(self.input(InputLine::RotarySwitchLeft).handle is None);
                } else if self.rotary_switch_right@.handle is None {
                    assert(self.input(InputLine::RotarySwitchRight).handle is None);
                } else if self.right_button_led@.handle is None {
                    assert(self.output(OutputLine::RightButtonLed).handle is None);
                } else if self.left_button_led@.handle is None {
                    assert(self.output(OutputLine::LeftButtonLed).handle is None);
                } else if self.buzzer@.handle is None {
                    assert(self.output(OutputLine::Buzzer).handle is None);
                } else if self.red_led@.handle is None {
                    assert(self.output(OutputLine::RedLed).handle is None);
                } else if self.green_led@.handle is None {
                    assert(self.output(OutputLine::GreenLed).handle is None);
                } else if self.blue_led@.handle is None {
                    assert(self.output(OutputLine::BlueLed).handle is None);
                } else if self.yellow_led@.handle is None {
                    assert(self.output(OutputLine::YellowLed).handle is None);
                } else {
                    assert(self.output(OutputLine::WhiteLed).handle is None);
                }
            }
        }
        b
    }

    /// Start-up's access to an output line: acquire its slot, put the handle
    /// in, release.
    pub fn install_output(&mut self, task: TaskId, line: OutputLine, handle: Output) -> (r: Result<
        (),
        SlotError,
    >)
        ensures
            r == old(self).output(line).fill_result(),
            final(self).output(line) == old(self).output(line).filled(handle),
            forall|other: OutputLine|
                other != line ==> (#[trigger] final(self).output(other)) == old(self).output(other),
            forall|other: InputLine| (#[trigger] final(self).input(other)) == old(self).input(other),
    {
        self.output_slot(line).fill(task, handle)
    }

    /// Start-up's access to an input line: acquire its slot, put the handle
    /// in, release.
    pub fn install_input(&mut self, task: TaskId, line: InputLine, handle: Input) -> (r: Result<
        (),
        SlotError,
    >)
        ensures
            r == old(self).input(line).fill_result(),
            final(self).input(line) == old(self).input(line).filled(handle),
            forall|other: InputLine|
                other != line ==> (#[trigger] final(self).input(other)) == old(self).input(other),
            forall|other: OutputLine|
                (#[trigger] final(self).output(other)) == old(self).output(other),
    {
        self.input_slot(line).fill(task, handle)
    }

    /// One whole access to an input line by `task`: acquire the slot, read
    /// whether the line is low, release the slot. The registry is left as it
    /// was.
    pub fn sample_low(&mut self, task: TaskId, line: InputLine) -> (r: Result<bool, SlotError>)
        ensures
            r == old(self).input(line).sample_result(),
            forall|other: InputLine| (#[trigger] final(self).input(other)) == old(self).input(other),
            forall|other: OutputLine|
                (#[trigger] final(self).output(other)) == old(self).output(other),
    {
        self.input_slot(line).sample_low(task)
    }

    /// One whole access to an output line by `task`: acquire the slot, apply
    /// `op`, release the slot. Nothing changes unless the access succeeds.
    pub fn drive(&mut self, task: TaskId, line: OutputLine, op: PinOp) -> (r: Result<
        (),
        SlotError,
    >)
        ensures
            r == old(self).output(line).drive_result(),
            final(self).output(line) == old(self).output(line).after_drive(op),
            forall|other: OutputLine|
                other != line ==> (#[trigger] final(self).output(other)) == old(self).output(other),
            forall|other: InputLine| (#[trigger] final(self).input(other)) == old(self).input(other),
    {
        self.output_slot(line).drive(task, op)
    }
}

/// At most one task holds a slot at a time: whoever is granted access is the
/// one holder, a second request while the slot is held is turned away and
/// changes nothing, and nobody but the holder can undo the hold.
pub proof fn lemma_mutual_exclusion<T>(slot: SlotView<T>, first: TaskId, second: TaskId)
    ensures
        slot.grants(first) && slot.grants(second) ==> first == second,
        slot.holder is None ==> slot.acquired(first).grants(first),
        slot.holder is None ==> slot.acquired(first).acquired(second) == slot.acquired(first),
        slot.holder is None && first != second ==> !slot.acquired(first).acquired(second).grants(
            second,
        ),
        slot.grants(first) && first != second ==> slot.released(second) == slot,
        slot.grants(first) ==> slot.released(first).holder is None,
        slot.acquired(first).handle == slot.handle,
        slot.released(first).handle == slot.handle,
{
}

} // verus!
