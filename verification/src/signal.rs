//! How tasks hand commands to each other.
//!
//! A [`SignalBus`] is a mailbox with room for one command: a new command
//! replaces one that nobody took yet, and the consumer sees each command at
//! most once. A [`CommandQueue`] keeps the commands for the display in order
//! and turns the producer away while it is full, so that nothing is lost.
//!
//! Both are kept in the primitives of the crate `embassy_sync`, reached here
//! through their calls that do not suspend. Verus does not look into that
//! crate: what this module says of its calls is taken on trust, and each such
//! function says so. The calls are made through `&mut`, so that nobody else
//! touches the primitive between two of them.

use vstd::prelude::*;
use embassy_sync::blocking_mutex::raw::NoopRawMutex;
use embassy_sync::channel::{Channel, TryReceiveError, TrySendError};
use embassy_sync::signal::Signal;
use crate::states::State;
use crate::tasks::mono_display::{MonoDisplayCommand, DISPLAY_QUEUE_DEPTH};
use crate::tasks::{BuzzerSequence, LEDRotationParams};

verus! {

/// What one task hands to another through a mailbox.
pub enum Command {
    /// A tone pattern, for the buzzer task.
    Buzzer(BuzzerSequence),
    /// A run of light, for the LED task.
    LedRotation(LEDRotationParams),
    /// A mode to change to, for the task that ticks the device.
    ChangeState(State),
}

/// A mailbox for one command, where the last writer wins: an
/// `embassy_sync::signal::Signal`.
#[verifier::external_body]
pub struct SignalBus {
    inner: Signal<NoopRawMutex, Command>,
}

/// The command that waits in a mailbox to be taken, if any.
pub uninterp spec fn bus_pending(bus: SignalBus) -> Option<Command>;

/// `Signal::new`: a signal that holds no value.
#[verifier::external_body]
fn bus_new() -> (bus: SignalBus)
    ensures
        bus_pending(bus) is None,
{
    SignalBus { inner: Signal::new() }
}

/// `Signal::signal`: the signal holds the given value afterwards, whatever
/// it held before.
#[verifier::external_body]
fn bus_signal(bus: &mut SignalBus, value: Command)
    ensures
        bus_pending(*final(bus)) == Some(value),
{
    bus.inner.signal(value)
}

/// `Signal::try_take`: hands out the value that the signal holds, if any, and
/// leaves the signal without a value.
#[verifier::external_body]
fn bus_try_take(bus: &mut SignalBus) -> (r: Option<Command>)
    ensures
        r == bus_pending(*old(bus)),
        bus_pending(*final(bus)) is None,
{
    bus.inner.try_take()
}

/// `Signal::signaled`: whether the signal holds a value.
#[verifier::external_body]
fn bus_signaled(bus: &SignalBus) -> (b: bool)
    ensures
        b == bus_pending(*bus) is Some,
{
    bus.inner.signaled()
}

impl View for SignalBus {
    type V = Option<Command>;

    open spec fn view(&self) -> Option<Command> {
        bus_pending(*self)
    }
}

/// The mailbox after a command was put in.
pub open spec fn signaled_with<T>(pending: Option<T>, value: T) -> Option<T> {
    Some(value)
}

/// What a consumer gets from the mailbox, and what it leaves behind.
pub open spec fn taken<T>(pending: Option<T>) -> (Option<T>, Option<T>) {
    (pending, None)
}

impl SignalBus {
    /// An empty mailbox.
    pub fn new() -> (bus: Self)
        ensures
            bus@ is None,
    {
        bus_new()
    }

    /// Puts `value` into the mailbox, over whatever waited there.
    pub fn signal(&mut self, value: Command)
        ensures
            final(self)@ == Some(value),
            final(self)@ == signaled_with(old(self)@, value),
    {
        bus_signal(self, value)
    }

    /// Whether a command waits.
    pub fn signaled(&self) -> (b: bool)
        ensures
            b == self@ is Some,
    {
        bus_signaled(self)
    }

    /// Takes the command that waits, and leaves the mailbox empty. With
    /// nothing there the consumer gets nothing and has to suspend.
    pub fn try_take(&mut self) -> (r: Option<Command>)
        ensures
            r == old(self)@,
            final(self)@ is None,
            (r, final(self)@) == taken(old(self)@),
    {
        bus_try_take(self)
    }
}

/// Two commands put in before the consumer looks are one command to the
/// consumer, the second: the first look yields it, and a look after that
/// yields nothing, whatever the mailbox held at first.
pub proof fn lemma_signals_coalesce<T>(start: Option<T>, first: T, second: T)
    ensures
        taken(signaled_with(signaled_with(start, first), second)).0 == Some(second),
        taken(taken(signaled_with(signaled_with(start, first), second)).1).0 is None,
{
}

/// The queue of commands for the display, with [`DISPLAY_QUEUE_DEPTH`] places: an
/// `embassy_sync::channel::Channel`.
#[verifier::external_body]
pub struct CommandQueue {
    inner: Channel<NoopRawMutex, MonoDisplayCommand, 20>,
}

/// The commands that wait in a queue, oldest first.
pub uninterp spec fn queue_items(q: CommandQueue) -> Seq<MonoDisplayCommand>;

/// `Channel::new`: a channel in which nothing waits.
#[verifier::external_body]
fn queue_new() -> (q: CommandQueue)
    ensures
        queue_items(q) == Seq::<MonoDisplayCommand>::empty(),
{
    CommandQueue { inner: Channel::new() }
}

/// `Channel::try_send`: while fewer than the 20 places are taken, the message
/// goes behind all that wait; in a full channel nothing changes and the
/// message comes back in the error.
#[verifier::external_body]
fn queue_try_send(q: &mut CommandQueue, cmd: MonoDisplayCommand) -> (r: Result<(), MonoDisplayCommand>)
    ensures
        r is Ok <==> queue_items(*old(q)).len() < 20,
        r is Ok ==> queue_items(*final(q)) == queue_items(*old(q)).push(cmd),
        r matches Err(back) ==> back == cmd && queue_items(*final(q)) == queue_items(*old(q)),
{
    match q.inner.try_send(cmd) {
        Ok(()) => Ok(()),
        Err(TrySendError::Full(back)) => Err(back),
    }
}

/// `Channel::try_receive`: hands out the message that waited longest and
/// keeps the others in their order; from an empty channel nothing comes and
/// nothing changes.
#[verifier::external_body]
fn queue_try_receive(q: &mut CommandQueue) -> (r: Option<MonoDisplayCommand>)
    ensures
        r is Some <==> queue_items(*old(q)).len() > 0,
        r matches Some(cmd) ==> cmd == queue_items(*old(q))[0] && queue_items(*final(q))
            == queue_items(*old(q)).drop_first(),
        r is None ==> queue_items(*final(q)) == queue_items(*old(q)),
{
    match q.inner.try_receive() {
        Ok(cmd) => Some(cmd),
        Err(TryReceiveError::Empty) => None,
    }
}

/// `Channel::len`: the number of messages that wait, which never exceeds the
/// 20 places.
#[verifier::external_body]
fn queue_len(q: &CommandQueue) -> (n: usize)
    ensures
        n == queue_items(*q).len(),
        n <= 20,
{
    q.inner.len()
}

impl View for CommandQueue {
    type V = Seq<MonoDisplayCommand>;

    open spec fn view(&self) -> Seq<MonoDisplayCommand> {
        queue_items(*self)
    }
}

impl CommandQueue {
    /// An empty queue.
    pub fn new() -> (q: Self)
        ensures
            q@.len() == 0,
    {
        queue_new()
    }

    /// The number of commands that wait.
    pub fn len(&self) -> (n: usize)
        ensures
            n == self@.len(),
            n <= DISPLAY_QUEUE_DEPTH,
    {
        queue_len(self)
    }

    /// Whether every place is taken.
    pub fn is_full(&self) -> (b: bool)
        ensures
            b == (self@.len() == DISPLAY_QUEUE_DEPTH),
    {
        queue_len(self) >= DISPLAY_QUEUE_DEPTH
    }

    /// Adds `cmd` behind all that wait, unless the queue is full: then the
    /// queue stays as it is, `cmd` comes back, and the producer has to
    /// suspend.
    pub fn try_send(&mut self, cmd: MonoDisplayCommand) -> (r: Result<(), MonoDisplayCommand>)
        ensures
            r is Ok <==> old(self)@.len() < DISPLAY_QUEUE_DEPTH,
            r is Ok ==> final(self)@ == old(self)@.push(cmd),
            r matches Err(back) ==> back == cmd && final(self)@ == old(self)@,
    {
        queue_try_send(self, cmd)
    }

    /// Takes the command that waited longest. With nothing there the
    /// consumer gets nothing and has to suspend.
    pub fn try_receive(&mut self) -> (r: Option<MonoDisplayCommand>)
        ensures
            r is Some <==> old(self)@.len() > 0,
            r matches Some(cmd) ==> cmd == old(self)@[0] && final(self)@ == old(self)@.drop_first(),
            r is None ==> final(self)@ == old(self)@,
    {
        queue_try_receive(self)
    }
}

/// What goes into a queue comes out in the same order: of two commands sent
/// one after the other into a queue with room, the first sent is the first
/// received, and the second follows.
pub proof fn lemma_queue_keeps_order<T>(waiting: Seq<T>, first: T, second: T)
    ensures
        waiting.len() == 0 ==> waiting.push(first).push(second)[0] == first,
        waiting.len() == 0 ==> waiting.push(first).push(second).drop_first()[0] == second,
        waiting.len() > 0 ==> waiting.push(first)[0] == waiting[0],
        waiting.push(first).drop_first().len() == waiting.len(),
{
}

} // verus!
