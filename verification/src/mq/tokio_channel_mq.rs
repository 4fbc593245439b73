//! Message buses over tokio's in-memory channels: a bounded many-producer
//! channel, and broadcast channels used either with one producer or with
//! many. Each end carries the id of its channel; the broadcast ends can be
//! closed, after which they refuse to send or receive.

use vstd::prelude::*;
use tokio::sync::{broadcast, mpsc};
use crate::ids::{Id, new_id};
use super::message_bus::{
    BroadcastingMessageBusReceiver, BroadcastingMessageBusSender, MessageBusError, MessageBusFailureCause,
    MessageBusReceiver, MessageBusSender, MpscMessageBus, SpmcMessageBus, SpmcMessageBusReceiver,
    SpmcMessageBusSender, StaticAsyncComponent, StaticClonableAsyncComponent, StaticClonableMpscMQ,
    StaticMpscMQReceiver,
};

verus! {

#[verifier::external_type_specification]
#[verifier::external_body]
#[verifier::reject_recursive_types(T)]
pub struct ExMpscSender<T>(mpsc::Sender<T>);

#[verifier::external_type_specification]
#[verifier::external_body]
#[verifier::reject_recursive_types(T)]
pub struct ExMpscReceiver<T>(mpsc::Receiver<T>);

#[verifier::external_type_specification]
#[verifier::external_body]
#[verifier::reject_recursive_types(T)]
pub struct ExBroadcastSender<T>(broadcast::Sender<T>);

#[verifier::external_type_specification]
#[verifier::external_body]
#[verifier::reject_recursive_types(T)]
pub struct ExBroadcastReceiver<T>(broadcast::Receiver<T>);

/// `Clone` of `tokio::sync::mpsc::Sender`: another handle to the same
/// channel; nothing is claimed of it.
pub assume_specification<T>[ <mpsc::Sender<T> as Clone>::clone ](sender: &mpsc::Sender<T>) -> (r: mpsc::Sender<
    T,
>);

/// `Clone` of `tokio::sync::broadcast::Sender`: another handle to the same
/// channel; nothing is claimed of it.
pub assume_specification<T>[ <broadcast::Sender<T> as Clone>::clone ](sender: &broadcast::Sender<T>) -> (r:
    broadcast::Sender<T>);

/// `tokio::sync::mpsc::channel`: a bounded channel of `n` places. It panics
/// on no places and on more than `usize::MAX >> 3`, which `requires` leaves
/// out; nothing is claimed of the ends.
#[verifier::external_body]
fn mpsc_channel<T>(n: usize) -> (r: (mpsc::Sender<T>, mpsc::Receiver<T>))
    requires
        0 < n <= usize::MAX / 8,
{
    mpsc::channel::<T>(n)
}

/// `tokio::sync::mpsc::Sender::try_send`: a refused message comes back as it
/// was given, with the cause: the channel is full or closed. Whether it is
/// refused depends on the channel's state, of which nothing is claimed.
#[verifier::external_body]
fn mpsc_try_send<T>(sender: &mpsc::Sender<T>, message: T) -> (r: Result<(), (T, MessageBusFailureCause)>)
    ensures
        r matches Err((m, cause)) ==> m == message && cause != MessageBusFailureCause::Unknown,
{
    match sender.try_send(message) {
        Ok(()) => Ok(()),
        Err(mpsc::error::TrySendError::Full(m)) => Err((m, MessageBusFailureCause::Full)),
        Err(mpsc::error::TrySendError::Closed(m)) => Err((m, MessageBusFailureCause::Closed)),
    }
}

/// `tokio::sync::mpsc::Sender::is_closed`: whether the receiving end went;
/// it depends on the other end, so nothing is claimed.
#[verifier::external_body]
fn mpsc_sender_is_closed<T>(sender: &mpsc::Sender<T>) -> (r: bool) {
    sender.is_closed()
}

/// `tokio::sync::mpsc::Receiver::try_recv`, with its error as text: the
/// result depends on what was sent, so nothing is claimed.
#[verifier::external_body]
fn mpsc_try_recv<T>(receiver: &mut mpsc::Receiver<T>) -> (r: Result<T, String>) {
    match receiver.try_recv() {
        Ok(m) => Ok(m),
        Err(e) => Err(e.to_string()),
    }
}

/// `tokio::sync::mpsc::Receiver::close`: the channel takes no more messages.
#[verifier::external_body]
fn mpsc_close_receiver<T>(receiver: &mut mpsc::Receiver<T>) {
    receiver.close()
}

/// `tokio::sync::broadcast::channel`: a channel that keeps the last `n`
/// messages. It panics on no places and on more than `usize::MAX >> 1`,
/// which `requires` leaves out; nothing is claimed of the ends.
#[verifier::external_body]
fn broadcast_channel<T: Clone>(n: usize) -> (r: (broadcast::Sender<T>, broadcast::Receiver<T>))
    requires
        0 < n <= usize::MAX / 2,
{
    broadcast::channel::<T>(n)
}

/// `tokio::sync::broadcast::Sender::send`: the number of receivers reached,
/// or, when there is none, the message back as it was given.
#[verifier::external_body]
fn broadcast_send<T>(sender: &broadcast::Sender<T>, message: T) -> (r: Result<usize, T>)
    ensures
        r matches Err(m) ==> m == message,
{
    match sender.send(message) {
        Ok(n) => Ok(n),
        Err(e) => Err(e.0),
    }
}

/// `tokio::sync::broadcast::Sender::subscribe`: a new receiving end. It
/// panics only when the channel already has `usize::MAX >> 2` receivers,
/// which no memory holds, and which nothing here can state.
#[verifier::external_body]
fn broadcast_subscribe<T>(sender: &broadcast::Sender<T>) -> (r: broadcast::Receiver<T>) {
    sender.subscribe()
}

/// `tokio::sync::broadcast::Receiver::resubscribe`: a new receiving end of
/// the same channel; it panics as `subscribe` does.
#[verifier::external_body]
fn broadcast_resubscribe<T: Clone>(receiver: &broadcast::Receiver<T>) -> (r: broadcast::Receiver<T>) {
    receiver.resubscribe()
}

/// `tokio::sync::broadcast::Sender::receiver_count`: it depends on the other
/// ends, so nothing is claimed.
#[verifier::external_body]
fn broadcast_receiver_count<T>(sender: &broadcast::Sender<T>) -> (r: usize) {
    sender.receiver_count()
}

/// `tokio::sync::broadcast::Sender::same_channel`: whether two senders share
/// a channel, which their values here do not show.
#[verifier::external_body]
fn broadcast_same_channel<T>(a: &broadcast::Sender<T>, b: &broadcast::Sender<T>) -> (r: bool) {
    a.same_channel(b)
}

/// `tokio::sync::broadcast::Receiver::try_recv`, with its error as text:
/// the result depends on what was sent, so nothing is claimed.
#[verifier::external_body]
fn broadcast_try_recv<T: Clone>(receiver: &mut broadcast::Receiver<T>) -> (r: Result<T, String>) {
    match receiver.try_recv() {
        Ok(m) => Ok(m),
        Err(e) => Err(e.to_string()),
    }
}

/// The sending end of a bounded many-producer channel.
#[derive(Debug)]
#[verifier::reject_recursive_types(T)]
pub struct TokioMpscMessageBusSender<T> {
    pub channel_id: Id,
    pub sender: mpsc::Sender<T>,
    pub closed: bool,
}

impl<T> Clone for TokioMpscMessageBusSender<T> {
    /// Another sending end of the same channel, closed as this one is.
    fn clone(&self) -> (r: Self)
        ensures
            r.channel_id == self.channel_id,
            r.closed == self.closed,
    {
        TokioMpscMessageBusSender { channel_id: self.channel_id, sender: self.sender.clone(), closed: self.closed }
    }
}

/// What a send on a bounded sender gives: refused as closed, with the
/// message back, once this end was closed; otherwise sent, or refused with
/// the message back and the cause, full or closed.
pub open spec fn mpsc_sender_send_outcome<T>(
    s: TokioMpscMessageBusSender<T>,
    message: T,
    r: Result<(), MessageBusError<T>>,
) -> bool {
    &&& s.closed ==> (r matches Err(MessageBusError::SendFailed(m, cause)) && m == message && cause
        == MessageBusFailureCause::Closed)
    &&& mpsc_send_outcome(message, r)
}

/// What a send on a bounded sender gives: sent, or refused with the message
/// back and the cause, full or closed.
pub open spec fn mpsc_send_outcome<T>(message: T, r: Result<(), MessageBusError<T>>) -> bool {
    r is Ok || (r matches Err(MessageBusError::SendFailed(m, cause)) && m == message && cause
        != MessageBusFailureCause::Unknown)
}

/// What a send on a many-producer broadcast sender gives: refused, with the
/// receiver's error as the bus reports it, once the end was closed or let
/// its channel go; otherwise sent, or failed with the message back when no
/// receiver listens.
pub open spec fn broadcasting_send_outcome<T>(
    s: TokioBroadcastingMessageBusSender<T>,
    message: T,
    r: Result<(), MessageBusError<T>>,
) -> bool {
    &&& (s.closed || s.sender is None) <==> (r matches Err(MessageBusError::ReceiverClosed))
    &&& (r is Ok || (r matches Err(MessageBusError::ReceiverClosed)) || (r matches Err(
        MessageBusError::SendFailed(m, cause),
    ) && m == message && cause == MessageBusFailureCause::Unknown))
}

/// What a receive on a bounded receiver gives: a message, or a failed
/// receive when the channel is empty or closed.
pub open spec fn mpsc_receive_outcome<T>(r: Result<T, MessageBusError<T>>) -> bool {
    r is Ok || r matches Err(MessageBusError::ReceiveFailed(_))
}

impl<T> TokioMpscMessageBusSender<T> {
    /// An open sending end.
    pub fn new(channel_id: Id, sender: mpsc::Sender<T>) -> (r: Self)
        ensures
            r.channel_id == channel_id,
            r.sender == sender,
            !r.closed,
    {
        Self { channel_id, sender, closed: false }
    }
}

impl<T> MpscMessageBus for TokioMpscMessageBusSender<T> {}

impl<T: Clone + Send + Sync + 'static> StaticClonableMpscMQ for TokioMpscMessageBusSender<T> {}

impl<T> MessageBusSender<T> for TokioMpscMessageBusSender<T> {
    open spec fn end_closed(&self) -> bool {
        self.closed
    }

    /// Sends at once when there is room; a refused message comes back with
    /// its cause, full or closed; a closed end refuses every message as
    /// closed.
    fn try_send(&self, message: T) -> (r: Result<(), MessageBusError<T>>)
        ensures
            mpsc_sender_send_outcome(*self, message, r),
    {
        if self.closed {
            return Err(MessageBusError::SendFailed(message, MessageBusFailureCause::Closed));
        }
        match mpsc_try_send(&self.sender, message) {
            Ok(()) => Ok(()),
            Err((m, cause)) => Err(MessageBusError::SendFailed(m, cause)),
        }
    }

    /// The end is closed: from now on it refuses every message as closed,
    /// as the channel does once its receiver went.
    fn close(&mut self)
        ensures
            *final(self) == (TokioMpscMessageBusSender { closed: true, ..*old(self) }),
    {
        self.closed = true;
    }

    /// Closed when this end was closed, or when the channel's receiver went.
    fn is_closed(&self) -> (r: bool)
        ensures
            self.closed ==> r,
    {
        self.closed || mpsc_sender_is_closed(&self.sender)
    }
}

/// The receiving end of a bounded many-producer channel.
#[derive(Debug)]
#[verifier::reject_recursive_types(T)]
pub struct TokioMpscMessageBusReceiver<T> {
    pub channel_id: Id,
    pub receiver: mpsc::Receiver<T>,
    pub closed: bool,
}

impl<T> TokioMpscMessageBusReceiver<T> {
    /// An open receiving end.
    pub fn new(channel_id: Id, receiver: mpsc::Receiver<T>) -> (r: Self)
        ensures
            r.channel_id == channel_id,
            r.receiver == receiver,
            !r.closed,
    {
        Self { channel_id, receiver, closed: false }
    }
}

impl<T> MpscMessageBus for TokioMpscMessageBusReceiver<T> {}

impl<T: Send + Sync + 'static> StaticMpscMQReceiver for TokioMpscMessageBusReceiver<T> {}

impl<T: Send + Sync + 'static> StaticAsyncComponent for TokioMpscMessageBusReceiver<T> {}

impl<T: Send + Sync + 'static> StaticAsyncComponent for TokioMpscMessageBusSender<T> {}

impl<T: Send + Sync + 'static> StaticAsyncComponent for TokioSpmcMessageBusSender<T> {}

impl<T: Send + Sync + 'static> StaticAsyncComponent for TokioSpmcMessageBusReceiver<T> {}

impl<T: Send + Sync + 'static> StaticAsyncComponent for TokioBroadcastingMessageBusSender<T> {}

impl<T: Send + Sync + 'static> StaticAsyncComponent for TokioBroadcastingMessageBusReceiver<T> {}

impl<T> SpmcMessageBusSender<T> for TokioSpmcMessageBusSender<T> {}

impl<T> SpmcMessageBusReceiver for TokioSpmcMessageBusReceiver<T> {}

impl<T> BroadcastingMessageBusSender<T> for TokioBroadcastingMessageBusSender<T> {}

impl<T> BroadcastingMessageBusReceiver for TokioBroadcastingMessageBusReceiver<T> {}

impl<T> MessageBusReceiver<T> for TokioMpscMessageBusReceiver<T> {
    open spec fn end_closed(&self) -> bool {
        self.closed
    }

    /// Takes a waiting message; an empty or closed channel is a failed
    /// receive. Messages sent before the end was closed can still be taken.
    fn try_recv(&mut self) -> (r: Result<T, MessageBusError<T>>)
        ensures
            final(self).channel_id == old(self).channel_id,
            final(self).closed == old(self).closed,
            mpsc_receive_outcome(r),
    {
        match mpsc_try_recv(&mut self.receiver) {
            Ok(m) => Ok(m),
            Err(text) => Err(MessageBusError::ReceiveFailed(text)),
        }
    }

    /// Closes the channel: it takes no more messages.
    fn close(&mut self)
        ensures
            final(self).channel_id == old(self).channel_id,
            final(self).closed,
    {
        mpsc_close_receiver(&mut self.receiver);
        self.closed = true;
    }
}

/// What a send on a one-producer sender gives: refused as closed once the
/// end was closed or let its channel go; otherwise sent, or failed with
/// the message back when no receiver listens.
pub open spec fn spmc_send_outcome<T>(
    s: TokioSpmcMessageBusSender<T>,
    message: T,
    r: Result<(), MessageBusError<T>>,
) -> bool {
    &&& (s.closed || s.sender is None) <==> (r matches Err(MessageBusError::SenderClosed))
    &&& (r is Ok || (r matches Err(MessageBusError::SenderClosed)) || (r matches Err(
        MessageBusError::SendFailed(m, cause),
    ) && m == message && cause == MessageBusFailureCause::Unknown))
}

/// What a receive on a broadcast receiver gives: refused as closed once the
/// end was closed or let its channel go; otherwise a message or a failed
/// receive.
pub open spec fn receive_outcome<T>(closed: bool, open_channel: bool, r: Result<T, MessageBusError<T>>) -> bool {
    &&& (closed || !open_channel) <==> (r matches Err(MessageBusError::ReceiverClosed))
    &&& (r is Ok || (r matches Err(MessageBusError::ReceiverClosed)) || (r matches Err(
        MessageBusError::ReceiveFailed(_),
    )))
}

/// The sending end of a broadcast channel with one producer.
#[derive(Debug)]
#[verifier::reject_recursive_types(T)]
pub struct TokioSpmcMessageBusSender<T> {
    pub channel_id: Id,
    pub sender: Option<broadcast::Sender<T>>,
    pub closed: bool,
}

impl<T> TokioSpmcMessageBusSender<T> {
    /// This end no longer sends: it was closed and let its channel go.
    pub open spec fn spec_is_closed(&self) -> bool {
        self.closed && self.sender is None
    }

    pub fn new(channel_id: Id, sender: broadcast::Sender<T>) -> (r: Self)
        ensures
            r.channel_id == channel_id,
            r.sender == Some(sender),
            !r.closed,
    {
        Self { channel_id, sender: Some(sender), closed: false }
    }

    /// Sends to every receiver: refused as closed once this end was closed
    /// or let its channel go, and a failure, with the message back, when no
    /// receiver listens.
    fn inner_send(&self, message: T) -> (r: Result<(), MessageBusError<T>>)
        ensures
            spmc_send_outcome(*self, message, r),
    {
        if self.closed {
            return Err(MessageBusError::SenderClosed);
        }
        match &self.sender {
            None => Err(MessageBusError::SenderClosed),
            Some(inner_sender) => match broadcast_send(inner_sender, message) {
                Ok(_) => Ok(()),
                Err(m) => Err(MessageBusError::SendFailed(m, MessageBusFailureCause::Unknown)),
            },
        }
    }
}

impl<T: Clone> SpmcMessageBus<T> for TokioSpmcMessageBusSender<T> {
    type Subscriber = TokioSpmcMessageBusReceiver<T>;

    /// A new receiver of this channel, open; refused once the channel was
    /// let go.
    fn sub(&self) -> (r: Result<TokioSpmcMessageBusReceiver<T>, MessageBusError<T>>)
        ensures
            self.sender is None ==> r matches Err(MessageBusError::SenderClosed),
            self.sender is Some ==> (r matches Ok(rx) && rx.channel_id == self.channel_id && rx.receiver is Some
                && !rx.closed),
    {
        match &self.sender {
            Some(inner_sender) => Ok(TokioSpmcMessageBusReceiver::new(self.channel_id, broadcast_subscribe(inner_sender))),
            None => Err(MessageBusError::SenderClosed),
        }
    }

    fn receiver_count(&self) -> (r: Result<usize, MessageBusError<T>>)
        ensures
            self.sender is None <==> r matches Err(MessageBusError::SenderClosed),
            r is Ok || r is Err,
    {
        match &self.sender {
            Some(inner_sender) => Ok(broadcast_receiver_count(inner_sender)),
            None => Err(MessageBusError::SenderClosed),
        }
    }

    /// Whether another sender shares this one's channel: never one that no
    /// longer sends; refused once this end let its channel go.
    fn same_channel(&self, other: &Self) -> (r: Result<bool, MessageBusError<T>>)
        ensures
            self.sender is None ==> r matches Err(MessageBusError::SenderClosed),
            self.sender is Some && (other.spec_is_closed() || other.sender is None) ==> r == Ok::<
                bool,
                MessageBusError<T>,
            >(false),
            self.sender is Some ==> r is Ok,
    {
        match &self.sender {
            Some(inner_sender) => {
                if other.closed && other.sender.is_none() {
                    return Ok(false);
                }
                match &other.sender {
                    Some(other_sender) => Ok(broadcast_same_channel(inner_sender, other_sender)),
                    None => Ok(false),
                }
            },
            None => Err(MessageBusError::SenderClosed),
        }
    }
}

impl<T> MessageBusSender<T> for TokioSpmcMessageBusSender<T> {
    open spec fn end_closed(&self) -> bool {
        self.spec_is_closed()
    }

    fn try_send(&self, message: T) -> (r: Result<(), MessageBusError<T>>)
        ensures
            spmc_send_outcome(*self, message, r),
    {
        self.inner_send(message)
    }

    /// Lets the channel go; from now on every send is refused.
    fn close(&mut self)
        ensures
            final(self).channel_id == old(self).channel_id,
            final(self).spec_is_closed(),
    {
        self.sender = None;
        self.closed = true;
    }

    fn is_closed(&self) -> (r: bool)
        ensures
            r == self.spec_is_closed(),
    {
        self.closed && self.sender.is_none()
    }
}

/// A receiving end of a broadcast channel with one producer; each end has
/// an id of its own.
#[derive(Debug)]
#[verifier::reject_recursive_types(T)]
pub struct TokioSpmcMessageBusReceiver<T> {
    pub id: Id,
    pub channel_id: Id,
    pub receiver: Option<broadcast::Receiver<T>>,
    pub closed: bool,
}

impl<T> TokioSpmcMessageBusReceiver<T> {
    pub fn new(channel_id: Id, receiver: broadcast::Receiver<T>) -> (r: Self)
        ensures
            r.channel_id == channel_id,
            r.receiver == Some(receiver),
            !r.closed,
    {
        Self { id: new_id(), channel_id, receiver: Some(receiver), closed: false }
    }

    /// Whether this end still receives: refused once it was closed or let
    /// its channel go.
    pub fn inner(&self) -> (r: Result<(), MessageBusError<T>>)
        ensures
            (self.closed || self.receiver is None) <==> r matches Err(MessageBusError::ReceiverClosed),
            r is Ok || r is Err,
    {
        if self.closed {
            return Err(MessageBusError::ReceiverClosed);
        }
        match &self.receiver {
            Some(_) => Ok(()),
            None => Err(MessageBusError::ReceiverClosed),
        }
    }
}

impl<T: Clone> Clone for TokioSpmcMessageBusReceiver<T> {
    /// Another receiving end of the same channel, with an id of its own; a
    /// clone of a closed end is closed.
    fn clone(&self) -> (r: Self)
        ensures
            r.channel_id == self.channel_id,
            self.receiver is Some ==> r.receiver is Some && !r.closed,
            self.receiver is None ==> r.receiver is None && r.closed,
    {
        match &self.receiver {
            Some(inner_receiver) => TokioSpmcMessageBusReceiver::new(self.channel_id, broadcast_resubscribe(inner_receiver)),
            None => TokioSpmcMessageBusReceiver { id: new_id(), channel_id: self.channel_id, receiver: None, closed: true },
        }
    }
}

impl<T: Clone + Send + Sync + 'static> StaticClonableAsyncComponent for TokioSpmcMessageBusReceiver<T> {}

impl<T: Clone> MessageBusReceiver<T> for TokioSpmcMessageBusReceiver<T> {
    open spec fn end_closed(&self) -> bool {
        self.closed
    }

    /// Takes a waiting message; refused once this end was closed; an empty,
    /// lagging or closed channel is a failed receive.
    fn try_recv(&mut self) -> (r: Result<T, MessageBusError<T>>)
        ensures
            final(self).id == old(self).id,
            final(self).channel_id == old(self).channel_id,
            final(self).closed == old(self).closed,
            final(self).receiver is Some == old(self).receiver is Some,
            receive_outcome(old(self).closed, old(self).receiver is Some, r),
    {
        if self.closed {
            return Err(MessageBusError::ReceiverClosed);
        }
        match &mut self.receiver {
            Some(inner_receiver) => match broadcast_try_recv(inner_receiver) {
                Ok(m) => Ok(m),
                Err(text) => Err(MessageBusError::ReceiveFailed(text)),
            },
            None => Err(MessageBusError::ReceiverClosed),
        }
    }

    /// Lets the channel go; from now on every receive is refused.
    fn close(&mut self)
        ensures
            final(self).id == old(self).id,
            final(self).channel_id == old(self).channel_id,
            final(self).closed,
            final(self).receiver is None,
    {
        self.receiver = None;
        self.closed = true;
    }
}

/// A sending end of a broadcast channel with many producers; each end has
/// an id of its own, which its clones share.
#[derive(Debug)]
#[verifier::reject_recursive_types(T)]
pub struct TokioBroadcastingMessageBusSender<T> {
    pub id: Id,
    pub channel_id: Id,
    pub sender: Option<broadcast::Sender<T>>,
    pub closed: bool,
}

impl<T> Clone for TokioBroadcastingMessageBusSender<T> {
    /// Another sending end of the same channel, with the same id, open or
    /// closed as this one is.
    fn clone(&self) -> (r: Self)
        ensures
            r.id == self.id,
            r.channel_id == self.channel_id,
            r.closed == self.closed,
            r.sender is Some == self.sender is Some,
    {
        let sender = match &self.sender {
            Some(s) => Some(s.clone()),
            None => None,
        };
        TokioBroadcastingMessageBusSender { id: self.id, channel_id: self.channel_id, sender, closed: self.closed }
    }
}

impl<T> TokioBroadcastingMessageBusSender<T> {
    pub fn new(channel_id: Id, sender: broadcast::Sender<T>) -> (r: Self)
        ensures
            r.channel_id == channel_id,
            r.sender == Some(sender),
            !r.closed,
    {
        Self { id: new_id(), channel_id, sender: Some(sender), closed: false }
    }

    /// Whether this end still sends: once it was closed or let its channel
    /// go it is refused, with the receiver's error, as the bus reports it.
    pub fn inner_sender(&self) -> (r: Result<(), MessageBusError<T>>)
        ensures
            (self.closed || self.sender is None) <==> r matches Err(MessageBusError::ReceiverClosed),
            r is Ok || r is Err,
    {
        if self.closed {
            return Err(MessageBusError::ReceiverClosed);
        }
        match &self.sender {
            Some(_) => Ok(()),
            None => Err(MessageBusError::ReceiverClosed),
        }
    }
}

impl<T> MessageBusSender<T> for TokioBroadcastingMessageBusSender<T> {
    open spec fn end_closed(&self) -> bool {
        self.closed
    }

    /// Sends to every receiver: refused once this end was closed, and a
    /// failure, with the message back, when no receiver listens.
    fn try_send(&self, message: T) -> (r: Result<(), MessageBusError<T>>)
        ensures
            broadcasting_send_outcome(*self, message, r),
    {
        if self.closed {
            return Err(MessageBusError::ReceiverClosed);
        }
        match &self.sender {
            None => Err(MessageBusError::ReceiverClosed),
            Some(inner_sender) => match broadcast_send(inner_sender, message) {
                Ok(_) => Ok(()),
                Err(m) => Err(MessageBusError::SendFailed(m, MessageBusFailureCause::Unknown)),
            },
        }
    }

    /// Lets the channel go; from now on every send is refused.
    fn close(&mut self)
        ensures
            final(self).id == old(self).id,
            final(self).channel_id == old(self).channel_id,
            final(self).closed,
            final(self).sender is None,
    {
        self.sender = None;
        self.closed = true;
    }

    fn is_closed(&self) -> (r: bool)
        ensures
            r == self.closed,
    {
        self.closed
    }
}

/// A receiving end of a broadcast channel with many producers.
#[derive(Debug)]
#[verifier::reject_recursive_types(T)]
pub struct TokioBroadcastingMessageBusReceiver<T> {
    pub id: Id,
    pub channel_id: Id,
    pub receiver: Option<broadcast::Receiver<T>>,
    pub closed: bool,
}

impl<T> TokioBroadcastingMessageBusReceiver<T> {
    pub fn new(channel_id: Id, receiver: broadcast::Receiver<T>) -> (r: Self)
        ensures
            r.channel_id == channel_id,
            r.receiver == Some(receiver),
            !r.closed,
    {
        Self { id: new_id(), channel_id, receiver: Some(receiver), closed: false }
    }

    /// Whether this end still receives: refused once it was closed or let
    /// its channel go.
    pub fn inner_receiver(&self) -> (r: Result<(), MessageBusError<T>>)
        ensures
            (self.closed || self.receiver is None) <==> r matches Err(MessageBusError::ReceiverClosed),
            r is Ok || r is Err,
    {
        if self.closed {
            return Err(MessageBusError::ReceiverClosed);
        }
        match &self.receiver {
            Some(_) => Ok(()),
            None => Err(MessageBusError::ReceiverClosed),
        }
    }
}

impl<T: Clone> Clone for TokioBroadcastingMessageBusReceiver<T> {
    /// Another receiving end of the same channel, with an id of its own; a
    /// clone of a closed end is closed.
    fn clone(&self) -> (r: Self)
        ensures
            r.channel_id == self.channel_id,
            self.receiver is Some ==> r.receiver is Some && !r.closed,
            self.receiver is None ==> r.receiver is None && r.closed,
    {
        match &self.receiver {
            Some(inner_receiver) => TokioBroadcastingMessageBusReceiver::new(
                self.channel_id,
                broadcast_resubscribe(inner_receiver),
            ),
            None => TokioBroadcastingMessageBusReceiver {
                id: new_id(),
                channel_id: self.channel_id,
                receiver: None,
                closed: true,
            },
        }
    }
}

impl<T: Clone + Send + Sync + 'static> StaticClonableAsyncComponent for TokioBroadcastingMessageBusReceiver<T> {}

impl<T: Clone> MessageBusReceiver<T> for TokioBroadcastingMessageBusReceiver<T> {
    open spec fn end_closed(&self) -> bool {
        self.closed
    }

    /// Takes a waiting message; refused once this end was closed; an empty,
    /// lagging or closed channel is a failed receive.
    fn try_recv(&mut self) -> (r: Result<T, MessageBusError<T>>)
        ensures
            final(self).id == old(self).id,
            final(self).channel_id == old(self).channel_id,
            final(self).closed == old(self).closed,
            final(self).receiver is Some == old(self).receiver is Some,
            receive_outcome(old(self).closed, old(self).receiver is Some, r),
    {
        if self.closed {
            return Err(MessageBusError::ReceiverClosed);
        }
        match &mut self.receiver {
            Some(inner_receiver) => match broadcast_try_recv(inner_receiver) {
                Ok(m) => Ok(m),
                Err(text) => Err(MessageBusError::ReceiveFailed(text)),
            },
            None => Err(MessageBusError::ReceiverClosed),
        }
    }

    /// Lets the channel go; from now on every receive is refused.
    fn close(&mut self)
        ensures
            final(self).id == old(self).id,
            final(self).channel_id == old(self).channel_id,
            final(self).closed,
            final(self).receiver is None,
    {
        self.receiver = None;
        self.closed = true;
    }
}

/// A bounded many-producer channel of `n` places; both ends are open and
/// carry the same fresh channel id.
pub fn create_tokio_mpsc_channel<T>(n: usize) -> (r: (TokioMpscMessageBusSender<T>, TokioMpscMessageBusReceiver<T>))
    requires
        0 < n <= usize::MAX / 8,
    ensures
        r.0.channel_id == r.1.channel_id,
        !r.0.closed && !r.1.closed,
{
    let (tx, rx) = mpsc_channel::<T>(n);
    let channel_id = new_id();
    (TokioMpscMessageBusSender::new(channel_id, tx), TokioMpscMessageBusReceiver::new(channel_id, rx))
}

/// A one-producer broadcast channel that keeps the last `n` messages; both
/// ends are open and carry the same fresh channel id.
pub fn create_tokio_spmc_channel<T: Clone>(n: usize) -> (r: (TokioSpmcMessageBusSender<T>, TokioSpmcMessageBusReceiver<T>))
    requires
        0 < n <= usize::MAX / 2,
    ensures
        r.0.channel_id == r.1.channel_id,
        r.0.sender is Some && !r.0.closed,
        r.1.receiver is Some && !r.1.closed,
{
    let (tx, rx) = broadcast_channel::<T>(n);
    let channel_id = new_id();
    (TokioSpmcMessageBusSender::new(channel_id, tx), TokioSpmcMessageBusReceiver::new(channel_id, rx))
}

/// A many-producer broadcast channel that keeps the last `n` messages; both
/// ends are open and carry the same fresh channel id.
pub fn create_tokio_broadcasting_channel<T: Clone>(n: usize) -> (r: (
    TokioBroadcastingMessageBusSender<T>,
    TokioBroadcastingMessageBusReceiver<T>,
))
    requires
        0 < n <= usize::MAX / 2,
    ensures
        r.0.channel_id == r.1.channel_id,
        r.0.sender is Some && !r.0.closed,
        r.1.receiver is Some && !r.1.closed,
{
    let (tx, rx) = broadcast_channel::<T>(n);
    let channel_id = new_id();
    (
        TokioBroadcastingMessageBusSender::new(channel_id, tx),
        TokioBroadcastingMessageBusReceiver::new(channel_id, rx),
    )
}

/// A closed end stays refused: once a one-producer sender is closed every
/// send it is asked for is refused as closed and hands nothing on, and once
/// a receiver is closed every receive is refused as closed.
pub proof fn law_closed_ends_refuse<T>(
    sender: TokioSpmcMessageBusSender<T>,
    message: T,
    sent: Result<(), MessageBusError<T>>,
    received: Result<T, MessageBusError<T>>,
)
    requires
        sender.spec_is_closed(),
        spmc_send_outcome(sender, message, sent),
        receive_outcome(true, false, received),
    ensures
        sent matches Err(MessageBusError::SenderClosed),
        received matches Err(MessageBusError::ReceiverClosed),
{
}

} // verus!
