//! The broadcast bus: one bounded channel whose publish side is shared by all
//! handles, with one independently advancing receiver per subscriber. A
//! subscriber that falls more than the capacity behind loses the oldest
//! messages and is told so.
use vstd::prelude::*;

use crate::store::Message;

verus! {

#[verifier::external_type_specification]
#[verifier::external_body]
#[verifier::reject_recursive_types(T)]
pub struct ExBroadcastSender<T>(tokio::sync::broadcast::Sender<T>);

#[verifier::external_type_specification]
#[verifier::external_body]
#[verifier::reject_recursive_types(T)]
pub struct ExBroadcastReceiver<T>(tokio::sync::broadcast::Receiver<T>);

/// The number of slots of the channel that `tx` publishes on, fixed when the
/// channel was made: a receiver that falls further behind loses the oldest
/// messages.
pub uninterp spec fn bus_capacity(tx: tokio::sync::broadcast::Sender<Message>) -> nat;

/// `n` is a power of two.
pub open spec fn is_power_of_two(n: nat) -> bool
    decreases n,
{
    if n == 1 {
        true
    } else if n < 2 || n % 2 != 0 {
        false
    } else {
        is_power_of_two(n / 2)
    }
}

/// Relies on tokio::sync::broadcast::channel, which panics on a capacity of
/// zero or above `usize::MAX / 2`, and makes the channel's slots the least
/// power of two not below `capacity`.
#[verifier::external_body]
fn open_channel(capacity: usize) -> (r: (
    tokio::sync::broadcast::Sender<Message>,
    tokio::sync::broadcast::Receiver<Message>,
))
    requires
        0 < capacity <= usize::MAX / 2,
    ensures
        capacity <= bus_capacity(r.0),
        is_power_of_two(capacity as nat) ==> bus_capacity(r.0) == capacity,
{
    tokio::sync::broadcast::channel(capacity)
}

/// Relies on tokio::sync::broadcast::Sender::send: it fails only when no
/// receiver is subscribed, and on success counts the receivers, at least one.
#[verifier::external_body]
fn send_message(tx: &tokio::sync::broadcast::Sender<Message>, m: Message) -> (r: Option<usize>)
    ensures
        r matches Some(n) ==> n >= 1,
{
    tx.send(m).ok()
}

/// Relies on tokio::sync::broadcast::Sender::subscribe: a receiver of the
/// messages sent after the call.
#[verifier::external_body]
fn subscribe_receiver(tx: &tokio::sync::broadcast::Sender<Message>) -> (r:
    tokio::sync::broadcast::Receiver<Message>)
{
    tx.subscribe()
}

/// Relies on tokio's Clone for broadcast::Sender: another publish side of the
/// same channel.
#[verifier::external_body]
fn clone_sender(tx: &tokio::sync::broadcast::Sender<Message>) -> (r:
    tokio::sync::broadcast::Sender<Message>)
    ensures
        bus_capacity(r) == bus_capacity(*tx),
{
    tx.clone()
}

/// Relies on tokio::sync::broadcast::Receiver::try_recv, each of its outcomes
/// kept as it is; a lag is reported only when at least one message was lost.
#[verifier::external_body]
fn try_receive(rx: &mut tokio::sync::broadcast::Receiver<Message>) -> (r: Delivery)
    ensures
        r matches Delivery::Lagged(n) ==> n >= 1,
{
    match rx.try_recv() {
        Ok(m) => Delivery::Message(m),
        Err(tokio::sync::broadcast::error::TryRecvError::Empty) => Delivery::Empty,
        Err(tokio::sync::broadcast::error::TryRecvError::Lagged(n)) => Delivery::Lagged(n),
        Err(tokio::sync::broadcast::error::TryRecvError::Closed) => Delivery::Closed,
    }
}

/// What one poll of a subscription found.
#[derive(Clone, Debug, PartialEq, Eq)]
pub enum Delivery {
    /// The next message published after the subscription.
    Message(Message),
    /// Nothing new yet.
    Empty,
    /// This many messages were dropped before they were read.
    Lagged(u64),
    /// Every publisher is gone.
    Closed,
}

/// What a session does with one delivery.
#[derive(Clone, Debug, PartialEq, Eq)]
pub enum SessionAction {
    /// Relay the message to the peer.
    Forward(Message),
    /// Wait for the next message.
    Wait,
    /// Note the gap of this many messages and go on with the next ones.
    NoteGap(u64),
    /// End the session.
    Close,
}

/// A session's decision on one delivery: messages are relayed, a lag is a
/// gap to tolerate rather than a failure, and only a closed channel ends it.
pub fn session_action(d: Delivery) -> (r: SessionAction)
    ensures
        d matches Delivery::Message(m) ==> r == SessionAction::Forward(m),
        d is Empty ==> r == SessionAction::Wait,
        d matches Delivery::Lagged(n) ==> r == SessionAction::NoteGap(n),
        d is Closed ==> r == SessionAction::Close,
{
    match d {
        Delivery::Message(m) => SessionAction::Forward(m),
        Delivery::Empty => SessionAction::Wait,
        Delivery::Lagged(n) => SessionAction::NoteGap(n),
        Delivery::Closed => SessionAction::Close,
    }
}

/// The publish side of the bus.
pub struct Publisher {
    pub tx: tokio::sync::broadcast::Sender<Message>,
}

/// One subscriber's receiver.
pub struct Subscription {
    rx: tokio::sync::broadcast::Receiver<Message>,
}

impl Publisher {
    /// The number of slots of the bus.
    pub open spec fn capacity(&self) -> nat {
        bus_capacity(self.tx)
    }

    /// A bus of at least `capacity` slots, exactly `capacity` when it is a
    /// power of two, with its first receiver.
    pub fn channel(capacity: usize) -> (r: (Publisher, Subscription))
        requires
            0 < capacity <= usize::MAX / 2,
        ensures
            capacity <= r.0.capacity(),
            is_power_of_two(capacity as nat) ==> r.0.capacity() == capacity,
    {
        let (tx, rx) = open_channel(capacity);
        (Publisher { tx }, Subscription { rx })
    }

    /// Publishes `m` to every current subscriber, without waiting on any.
    /// `None` when there is no subscriber; otherwise how many there were.
    pub fn publish(&self, m: Message) -> (r: Option<usize>)
        ensures
            r matches Some(n) ==> n >= 1,
    {
        send_message(&self.tx, m)
    }

    /// A new subscription, which sees the messages published after it.
    pub fn subscribe(&self) -> Subscription {
        Subscription { rx: subscribe_receiver(&self.tx) }
    }

    /// Another publish side of the same bus.
    pub fn share(&self) -> (r: Publisher)
        ensures
            r.capacity() == self.capacity(),
    {
        Publisher { tx: clone_sender(&self.tx) }
    }
}

impl Subscription {
    /// Takes the next delivery without waiting: the oldest unread message,
    /// or the number of messages lost, at least one, when this subscriber
    /// fell more than the capacity behind.
    pub fn poll(&mut self) -> (r: Delivery)
        ensures
            r matches Delivery::Lagged(n) ==> n >= 1,
    {
        try_receive(&mut self.rx)
    }

    /// The underlying receiver, for a subscriber that waits for messages.
    pub fn into_receiver(self) -> tokio::sync::broadcast::Receiver<Message> {
        self.rx
    }
}

} // verus!
