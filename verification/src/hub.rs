//! Fan-out hubs: one producer side, any number of independent subscribers,
//! each with a bounded backlog that drops its oldest values when it lags.

use vstd::prelude::*;

verus! {

/// `tokio::sync::broadcast::Sender`, the sending half of a channel, as an
/// opaque value.
#[verifier::external_type_specification]
#[verifier::external_body]
#[verifier::reject_recursive_types(T)]
pub struct ExSender<T>(tokio::sync::broadcast::Sender<T>);

/// `tokio::sync::broadcast::Receiver`, one subscriber's receiving half, as
/// an opaque value.
#[verifier::external_type_specification]
#[verifier::external_body]
#[verifier::reject_recursive_types(T)]
pub struct ExReceiver<T>(tokio::sync::broadcast::Receiver<T>);

/// The backlog asked for each subscriber of a hub. The channel may keep more.
pub const HUB_CAPACITY: usize = 100;

/// `tokio::sync::broadcast::channel`, keeping the sending half. The receiving
/// half that comes with it is dropped at once, so the channel starts without
/// subscribers. The channel is created only for a capacity that tokio
/// accepts: not zero and at most half of `usize::MAX`.
#[verifier::external_body]
fn open_channel<T: Clone>(capacity: usize) -> (sender: tokio::sync::broadcast::Sender<T>)
    requires
        0 < capacity <= usize::MAX / 2,
{
    let (sender, _) = tokio::sync::broadcast::channel(capacity);
    sender
}

/// `tokio::sync::broadcast::Sender::send`. It never blocks. It answers with
/// the number of receivers subscribed at that moment, and that number is at
/// least one; with no receiver subscribed the value is dropped and there is
/// no number. How many there are depends on the other handles of the channel,
/// so nothing more is claimed.
#[verifier::external_body]
fn channel_send<T>(sender: &tokio::sync::broadcast::Sender<T>, value: T) -> (receivers: Option<usize>)
    ensures
        receivers matches Some(n) ==> n >= 1,
{
    sender.send(value).ok()
}

/// `tokio::sync::broadcast::Sender::subscribe`: a new receiver that sees the
/// values sent after this call. Nothing is claimed of the receiver, which is
/// opaque. (tokio refuses a new receiver only once `usize::MAX / 4` of them
/// exist, more than memory can hold.)
#[verifier::external_body]
fn channel_subscribe<T>(sender: &tokio::sync::broadcast::Sender<T>) -> (receiver: tokio::sync::broadcast::Receiver<T>)
{
    sender.subscribe()
}

/// `tokio::sync::broadcast::Receiver::try_recv`, without waiting: the next
/// value that this receiver has not read, or nothing where none is waiting,
/// where the receiver lagged and values were dropped, or where every sender is
/// gone. What comes back depends on what was sent through other handles, so
/// nothing is claimed of it.
#[verifier::external_body]
fn channel_try_recv<T: Clone>(receiver: &mut tokio::sync::broadcast::Receiver<T>) -> (value: Option<T>)
{
    receiver.try_recv().ok()
}

/// The producer side of one logical stream. It records, as ghost state, every
/// value that it was handed, in order. Delivery is the channel's: each
/// subscriber is handed the values published after it subscribed, and one that
/// falls more than the channel's capacity behind loses its oldest unread
/// values. The producer is never held up.
#[verifier::reject_recursive_types(T)]
pub struct Hub<T> {
    sender: tokio::sync::broadcast::Sender<T>,
    ledger: Ghost<Seq<T>>,
}

/// One subscriber's cursor into a hub. It records, as ghost state, how many
/// values the hub had published when the subscription was made.
#[verifier::reject_recursive_types(T)]
pub struct Subscription<T> {
    receiver: tokio::sync::broadcast::Receiver<T>,
    origin: Ghost<nat>,
}

impl<T: Clone> Hub<T> {
    /// Every value handed to this hub since it was made, oldest first.
    pub closed spec fn published(&self) -> Seq<T> {
        self.ledger@
    }

    /// A hub without subscribers, to which nothing has been published.
    pub fn new() -> (hub: Self)
        ensures
            hub.published() == Seq::<T>::empty(),
    {
        Hub { sender: open_channel(HUB_CAPACITY), ledger: Ghost(Seq::empty()) }
    }

    /// Publishes `value` to every current subscriber without blocking, and
    /// answers with the number of subscribers at that moment: zero where
    /// there is none, in which case the value is dropped.
    pub fn send(&mut self, value: T) -> (receivers: usize)
        ensures
            final(self).published() == old(self).published().push(value),
    {
        proof {
            self.ledger@ = self.ledger@.push(value);
        }
        match channel_send(&self.sender, value) {
            Some(n) => n,
            None => 0,
        }
    }

    /// A new subscriber, which is handed only what is published from now on:
    /// its place in the hub's stream is behind everything published so far.
    pub fn subscribe(&self) -> (subscription: Subscription<T>)
        ensures
            subscription.subscribed_at() == self.published().len(),
    {
        Subscription { receiver: channel_subscribe(&self.sender), origin: Ghost(self.ledger@.len()) }
    }
}

impl<T: Clone> Subscription<T> {
    /// How many values the hub had published when this subscription was
    /// made: the subscriber's place in the hub's stream at that moment.
    pub closed spec fn subscribed_at(&self) -> nat {
        self.origin@
    }

    /// The channel's receiver that this subscription reads from.
    pub closed spec fn receiver(&self) -> tokio::sync::broadcast::Receiver<T> {
        self.receiver
    }

    /// The next value waiting for this subscriber, if one is, without
    /// blocking. Where the subscription was made does not change.
    pub fn try_next(&mut self) -> (value: Option<T>)
        ensures
            final(self).subscribed_at() == old(self).subscribed_at(),
    {
        channel_try_recv(&mut self.receiver)
    }

    /// Hands out the receiver that this subscription reads from, at the place
    /// it has reached, for a consumer that waits on it.
    pub fn into_receiver(self) -> (receiver: tokio::sync::broadcast::Receiver<T>)
        ensures
            receiver == self.receiver(),
    {
        self.receiver
    }
}

} // verus!
