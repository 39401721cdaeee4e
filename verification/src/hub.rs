//! The broadcast hub: one bounded multi-consumer channel that every
//! connection publishes to and receives from.

use crate::error::ChatError;
use vstd::prelude::*;

verus! {

/// `tokio::sync::broadcast::Sender`, the sending half of the channel.
#[verifier::external_type_specification]
#[verifier::external_body]
#[verifier::reject_recursive_types(T)]
pub struct ExSender<T>(tokio::sync::broadcast::Sender<T>);

/// `tokio::sync::broadcast::Receiver`, the receiving half of one subscriber.
#[verifier::external_type_specification]
#[verifier::external_body]
#[verifier::reject_recursive_types(T)]
pub struct ExReceiver<T>(tokio::sync::broadcast::Receiver<T>);

/// `tokio::sync::broadcast::error::SendError`, which hands back what could
/// not be sent.
#[verifier::external_type_specification]
#[verifier::external_body]
#[verifier::reject_recursive_types(T)]
pub struct ExSendError<T>(tokio::sync::broadcast::error::SendError<T>);

/// Number of messages the hub retains, at least, for subscribers that are
/// behind.
pub const BACKLOG: usize = 100;

/// The channel that a sender sends into: what `Sender::same_channel`
/// compares.
pub uninterp spec fn sender_channel(sender: tokio::sync::broadcast::Sender<String>) -> int;

/// The channel that a receiver receives from: what `Receiver::same_channel`
/// compares.
pub uninterp spec fn receiver_channel(receiver: tokio::sync::broadcast::Receiver<String>) -> int;

/// Number of messages that a channel holds for the receivers that are behind.
pub uninterp spec fn channel_slots(channel: int) -> int;

/// `tokio::sync::broadcast::channel`, of which only the sending half is kept.
/// The call panics on a capacity of zero or above `usize::MAX / 2`. The
/// channel is made with the capacity asked for, rounded up to a power of two.
#[verifier::external_body]
fn open_channel(capacity: usize) -> (sender: tokio::sync::broadcast::Sender<String>)
    requires
        0 < capacity <= usize::MAX / 2,
    ensures
        channel_slots(sender_channel(sender)) >= capacity,
{
    tokio::sync::broadcast::channel(capacity).0
}

/// `Sender::clone`: one more sending handle of the same channel.
#[verifier::external_body]
fn another_sender(sender: &tokio::sync::broadcast::Sender<String>) -> (copy:
    tokio::sync::broadcast::Sender<String>)
    ensures
        sender_channel(copy) == sender_channel(*sender),
{
    sender.clone()
}

/// `Sender::subscribe`: a receiver of the sender's channel, which sees what is
/// sent from now on. It panics only at `usize::MAX / 4` live receivers, more
/// than memory holds.
#[verifier::external_body]
fn new_receiver(sender: &tokio::sync::broadcast::Sender<String>) -> (receiver:
    tokio::sync::broadcast::Receiver<String>)
    ensures
        receiver_channel(receiver) == sender_channel(*sender),
{
    sender.subscribe()
}

/// `Sender::send`. Whether it succeeds depends on the receivers alive at that
/// moment; where it does, it returns their number, which is not zero.
#[verifier::external_body]
fn send(sender: &tokio::sync::broadcast::Sender<String>, text: String) -> (sent: Result<
    usize,
    tokio::sync::broadcast::error::SendError<String>,
>)
    ensures
        sent matches Ok(n) ==> n >= 1,
{
    sender.send(text)
}

/// A publishing handle of the hub.
pub struct Hub {
    sender: tokio::sync::broadcast::Sender<String>,
    backlog: usize,
}

/// The receiving side of one connection. Its owner awaits `receiver.recv()`.
pub struct Subscription {
    pub receiver: tokio::sync::broadcast::Receiver<String>,
}

impl Hub {
    /// The backlog the hub was made with.
    pub closed spec fn backlog(&self) -> usize {
        self.backlog
    }

    /// The channel the hub publishes into.
    pub closed spec fn channel(&self) -> int {
        sender_channel(self.sender)
    }

    /// Number of messages the hub's channel holds for subscribers that are
    /// behind.
    pub open spec fn retained(&self) -> int {
        channel_slots(self.channel())
    }

    /// A hub on a channel of its own, with the default backlog.
    pub fn new() -> (hub: Hub)
        ensures
            hub.backlog() == BACKLOG,
            hub.retained() >= BACKLOG,
    {
        Hub { sender: open_channel(BACKLOG), backlog: BACKLOG }
    }

    /// A hub on a channel of its own, which retains the last `capacity`
    /// messages at least.
    pub fn with_backlog(capacity: usize) -> (hub: Hub)
        requires
            0 < capacity <= usize::MAX / 2,
        ensures
            hub.backlog() == capacity,
            hub.retained() >= capacity,
    {
        Hub { sender: open_channel(capacity), backlog: capacity }
    }

    /// The backlog the hub was made with.
    pub fn capacity(&self) -> (capacity: usize)
        ensures
            capacity == self.backlog(),
    {
        self.backlog
    }

    /// Another handle of the same hub, for one more publisher.
    pub fn handle(&self) -> (hub: Hub)
        ensures
            hub.channel() == self.channel(),
            hub.backlog() == self.backlog(),
    {
        Hub { sender: another_sender(&self.sender), backlog: self.backlog }
    }

    /// Registers a new subscriber on the hub's channel, which receives what is
    /// published after this call.
    pub fn subscribe(&self) -> (subscription: Subscription)
        ensures
            subscription.channel() == self.channel(),
    {
        Subscription::new(new_receiver(&self.sender))
    }

    /// Publishes one text to all current subscribers, without waiting for any
    /// of them, and says how many there are. The only failure is a hub
    /// without subscribers.
    pub fn publish(&self, text: String) -> (r: Result<usize, ChatError>)
        ensures
            match r {
                Ok(n) => n >= 1,
                Err(e) => e == ChatError::HubClosed,
            },
    {
        Hub::outcome(send(&self.sender, text))
    }

    /// What a publish comes to, given the channel's answer to the send: the
    /// number of subscribers that the channel counted, or `HubClosed` where
    /// the channel had none and handed the text back.
    pub fn outcome(
        sent: Result<usize, tokio::sync::broadcast::error::SendError<String>>,
    ) -> (r: Result<usize, ChatError>)
        ensures
            match sent {
                Ok(n) => r == Ok::<usize, ChatError>(n),
                Err(_) => r == Err::<usize, ChatError>(ChatError::HubClosed),
            },
    {
        match sent {
            Ok(n) => Ok(n),
            Err(_) => Err(ChatError::HubClosed),
        }
    }
}

impl Subscription {
    /// The channel the subscription receives from.
    pub open spec fn channel(&self) -> int {
        receiver_channel(self.receiver)
    }

    /// The subscription that receives through this receiver.
    pub fn new(receiver: tokio::sync::broadcast::Receiver<String>) -> (subscription: Subscription)
        ensures
            subscription.receiver == receiver,
    {
        Subscription { receiver }
    }
}

} // verus!
