//! The dispatch bus: a bounded broadcast channel of events.
//!
//! The channel itself is `tokio::sync::broadcast`. Any holder of a sender
//! may publish, every subscription is an independent cursor that sees what
//! is published after it was made, and a subscriber that falls behind by
//! more than the channel retains is told how many events it missed and
//! resumes from the oldest one still retained.
//!
//! Other holders of the channel publish while this one polls, so nothing
//! here says which event a poll returns: the callers are verified for every
//! outcome.

use crate::actions::{DispatchActions, EventView};
use crate::animation::models::AnimationServiceMode;
use vstd::prelude::*;

verus! {

/// The publishing end of the bus. Nothing is known of what it holds.
#[verifier::external_type_specification]
#[verifier::external_body]
#[verifier::reject_recursive_types(T)]
pub struct ExSender<T>(tokio::sync::broadcast::Sender<T>);

/// One subscription to the bus. Nothing is known of what it holds.
#[verifier::external_type_specification]
#[verifier::external_body]
#[verifier::reject_recursive_types(T)]
pub struct ExReceiver<T>(tokio::sync::broadcast::Receiver<T>);

/// What a subscriber gets when it asks the bus for its next event.
#[derive(Debug, PartialEq, Eq)]
pub enum Received {
    /// The next event, in publishing order.
    Event(DispatchActions),
    /// Nothing is pending.
    Empty,
    /// The subscriber fell behind and missed this many events; its cursor
    /// now stands at the oldest event still retained.
    Lagged(u64),
    /// Every sender is gone and nothing is pending.
    Closed,
}

/// What a poll result is.
pub enum ReceivedView {
    Event(EventView),
    Empty,
    Lagged(u64),
    Closed,
}

impl ReceivedView {
    /// The mode that the poll result forces: that of the event, if there is
    /// one. A lag, an empty bus and a closed bus force nothing.
    pub open spec fn forced_mode(self) -> Option<AnimationServiceMode> {
        match self {
            ReceivedView::Event(event) => event.forced_mode(),
            _ => None,
        }
    }
}

impl View for Received {
    type V = ReceivedView;

    open spec fn view(&self) -> ReceivedView {
        match self {
            Received::Event(event) => ReceivedView::Event(event@),
            Received::Empty => ReceivedView::Empty,
            Received::Lagged(missed) => ReceivedView::Lagged(*missed),
            Received::Closed => ReceivedView::Closed,
        }
    }
}

impl Received {
    /// The mode that this poll result forces on the scheduler.
    pub fn forced_mode(&self) -> (mode: Option<AnimationServiceMode>)
        ensures
            mode == self@.forced_mode(),
    {
        match self {
            Received::Event(event) => event.forced_mode(),
            _ => None,
        }
    }
}

/// The capacity that the bus of the application is opened with. The channel
/// rounds it up to a power of two, so that this bus retains 64 events.
pub const DEFAULT_CAPACITY: usize = 50;

/// Calls `tokio::sync::broadcast::channel` and keeps the sender.
///
/// The channel refuses a capacity of zero and one above half of
/// `usize::MAX`. It allocates room for `capacity` events, rounded up to a
/// power of two, at once.
#[verifier::external_body]
fn new_channel(capacity: usize) -> tokio::sync::broadcast::Sender<DispatchActions>
    requires
        0 < capacity <= usize::MAX / 2,
{
    tokio::sync::broadcast::channel(capacity).0
}

/// Calls `tokio::sync::broadcast::Sender::send`.
///
/// The channel accepts the event whenever it has a subscriber and then
/// reports how many it has, which is at least one. Without a subscriber it
/// hands the event back.
#[verifier::external_body]
fn send_event(
    sender: &tokio::sync::broadcast::Sender<DispatchActions>,
    event: DispatchActions,
) -> (sent: Result<usize, DispatchActions>)
    ensures
        match sent {
            Ok(subscribers) => subscribers >= 1,
            Err(returned) => returned@ == event@,
        },
{
    sender.send(event).map_err(|refused| refused.0)
}

/// Calls `tokio::sync::broadcast::Sender::subscribe`.
///
/// The subscription sees the events published after this call. The channel
/// refuses to count more than a quarter of `usize::MAX` subscriptions, which
/// do not fit in memory.
#[verifier::external_body]
fn new_subscription(
    sender: &tokio::sync::broadcast::Sender<DispatchActions>,
) -> tokio::sync::broadcast::Receiver<DispatchActions> {
    sender.subscribe()
}

/// Calls `tokio::sync::broadcast::Receiver::try_recv`, which does not wait.
///
/// Which of the four outcomes comes back depends on what the other holders
/// of the channel have published. The channel reports a lag only when at
/// least one event was missed.
#[verifier::external_body]
fn try_receive(
    receiver: &mut tokio::sync::broadcast::Receiver<DispatchActions>,
) -> (received: Received)
    ensures
        received matches Received::Lagged(missed) ==> missed > 0,
{
    match receiver.try_recv() {
        Ok(event) => Received::Event(event),
        Err(tokio::sync::broadcast::error::TryRecvError::Empty) => Received::Empty,
        Err(tokio::sync::broadcast::error::TryRecvError::Lagged(missed)) => Received::Lagged(
            missed,
        ),
        Err(tokio::sync::broadcast::error::TryRecvError::Closed) => Received::Closed,
    }
}

/// Opens a bus of the given capacity and returns its publishing end. The
/// bus retains `capacity` events, rounded up to a power of two, for its
/// slowest subscriber. The capacity cannot be zero, nor more than half of
/// `usize::MAX`.
pub fn open(capacity: usize) -> (bus: Option<tokio::sync::broadcast::Sender<DispatchActions>>)
    ensures
        bus is Some <==> 0 < capacity <= usize::MAX / 2,
{
    if capacity == 0 || capacity > usize::MAX / 2 {
        None
    } else {
        Some(new_channel(capacity))
    }
}

/// Publishes `event` to every subscriber, without waiting for any of them.
/// Returns the number of subscribers, or the event itself if there is none.
pub fn publish(
    sender: &tokio::sync::broadcast::Sender<DispatchActions>,
    event: DispatchActions,
) -> (sent: Result<usize, DispatchActions>)
    ensures
        match sent {
            Ok(subscribers) => subscribers >= 1,
            Err(returned) => returned@ == event@,
        },
{
    send_event(sender, event)
}

/// Subscribes to the bus. The subscription is a cursor of its own: it sees
/// the events that are published from now on, in publishing order.
pub fn subscribe(
    sender: &tokio::sync::broadcast::Sender<DispatchActions>,
) -> tokio::sync::broadcast::Receiver<DispatchActions> {
    new_subscription(sender)
}

/// Takes the next pending event of a subscription without waiting.
pub fn poll(
    receiver: &mut tokio::sync::broadcast::Receiver<DispatchActions>,
) -> (received: Received)
    ensures
        received matches Received::Lagged(missed) ==> missed > 0,
{
    try_receive(receiver)
}

} // verus!
