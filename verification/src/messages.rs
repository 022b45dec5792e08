//! What the tasks of the device say to each other.
//!
//! Notifications for the console writer go through a single slot that keeps
//! only the value published last. The slot is an `embassy_sync` signal, held
//! inside [`Console`].

use crate::faults::Fault;
use embassy_sync::blocking_mutex::raw::CriticalSectionRawMutex;
use embassy_sync::signal::Signal;
use vstd::prelude::*;

verus! {

/// Discrete events for the bounded event queue of the device. The queue is
/// set up by the firmware; nothing in this crate posts to it.
#[derive(PartialEq, Debug)]
pub enum Events {
    /// The chip reports this condition.
    Fault(Fault),
}

/// Commands for the console writer.
#[derive(PartialEq, Debug)]
pub enum Commands {
    /// Send these bytes out of the console link.
    UsartTxBuf(&'static [u8]),
}

impl View for Commands {
    type V = Seq<u8>;

    /// The bytes that the command carries.
    open spec fn view(&self) -> Seq<u8> {
        match self {
            Commands::UsartTxBuf(bytes) => bytes@,
        }
    }
}

/// The single slot through which notifications reach the console writer: an
/// `embassy_sync::signal::Signal` that this handle owns.
#[verifier::external_body]
pub struct Console {
    slot: Signal<CriticalSectionRawMutex, Commands>,
}

/// The value that waits in the slot for its consumer: `Some` exactly while the
/// signal is in its signaled state.
pub uninterp spec fn console_pending(console: Console) -> Option<Commands>;

/// Calls `Signal::new`. Believed, not proved: a new signal holds nothing.
#[verifier::external_body]
fn console_new() -> (console: Console)
    ensures
        console_pending(console) is None,
{
    Console { slot: Signal::new() }
}

/// Calls `Signal::signal`. Believed, not proved: afterwards the signal holds
/// exactly the value given, whatever it held before.
#[verifier::external_body]
fn console_signal(console: &mut Console, command: Commands)
    ensures
        console_pending(*final(console)) == Some(command),
{
    console.slot.signal(command)
}

/// Calls `Signal::try_take`. Believed, not proved: it hands out what the
/// signal held, and leaves the signal empty.
#[verifier::external_body]
fn console_try_take(console: &mut Console) -> (taken: Option<Commands>)
    ensures
        taken == console_pending(*old(console)),
        console_pending(*final(console)) is None,
{
    console.slot.try_take()
}

/// What the slot holds once `published` has been published, one value after
/// the other, into a slot that held `before`: the last of them, or `before`
/// where nothing was published.
pub open spec fn pending_after(before: Option<Commands>, published: Seq<Commands>) -> Option<
    Commands,
> {
    if published.len() == 0 {
        before
    } else {
        Some(published.last())
    }
}

/// What the consumer gets when it takes from a slot that holds `pending`,
/// and what the slot holds afterwards: the value, and nothing.
pub open spec fn take_from(pending: Option<Commands>) -> (Option<Commands>, Option<Commands>) {
    (pending, None)
}

impl Console {
    /// The value that waits in the slot.
    pub open spec fn pending(&self) -> Option<Commands> {
        console_pending(*self)
    }

    /// An empty slot.
    pub fn new() -> (console: Console)
        ensures
            console.pending() is None,
    {
        console_new()
    }

    /// Publishes `command`. A value that still waited in the slot is lost.
    pub fn publish(&mut self, command: Commands)
        ensures
            final(self).pending() == pending_after(old(self).pending(), seq![command]),
    {
        console_signal(self, command);
    }

    /// Takes the waiting value out of the slot, if there is one.
    pub fn take(&mut self) -> (taken: Option<Commands>)
        ensures
            (taken, final(self).pending()) == take_from(old(self).pending()),
    {
        console_try_take(self)
    }
}

/// Latest wins: of two values published before the consumer looks, the
/// consumer takes the second, and taking again it gets nothing: the first is
/// never seen, whatever the slot held before.
pub proof fn lemma_latest_wins(before: Option<Commands>, first: Commands, second: Commands)
    ensures
        ({
            let pending = pending_after(pending_after(before, seq![first]), seq![second]);
            let (taken, left) = take_from(pending);
            &&& pending == pending_after(before, seq![first, second])
            &&& taken == Some(second)
            &&& take_from(left).0 is None
        }),
{
}

} // verus!
