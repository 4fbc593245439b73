//! The interfaces of a message bus: senders, receivers and the kinds of
//! channel, and what goes wrong on them.

use vstd::prelude::*;

verus! {

/// Why a message could not be sent.
#[derive(Debug, Clone, Copy, PartialEq, Eq, Structural)]
pub enum MessageBusFailureCause {
    Full,
    Closed,
    Unknown,
}

/// What goes wrong on a message bus. A failed send hands the message back.
#[derive(Debug)]
pub enum MessageBusError<T> {
    SendFailed(T, MessageBusFailureCause),
    ReceiveFailed(String),
    LockAcquistionFailed,
    SenderClosed,
    ReceiverClosed,
}

impl<T> MessageBusError<T> {
    /// The error's text, which says nothing more than its variant.
    pub fn message(&self) -> (r: String)
        ensures
            r@ == Seq::<char>::empty(),
    {
        String::new()
    }
}

/// A message bus that sends and receives over one handle.
pub trait MessageBus<T> {
    fn send(&self, message: T) -> Result<(), MessageBusError<T>>;

    fn receive(&mut self) -> Option<T>;

    fn close(&mut self);
}

/// The sending end of a message bus.
pub trait MessageBusSender<T> {
    /// This end was closed.
    spec fn end_closed(&self) -> bool;

    /// Sends a message if it can be sent at once; a message refused as
    /// undeliverable comes back as it was given.
    fn try_send(&self, message: T) -> (r: Result<(), MessageBusError<T>>)
        ensures
            r matches Err(MessageBusError::SendFailed(m, _)) ==> m == message,
    ;

    /// Stops this end from sending.
    fn close(&mut self)
        ensures
            final(self).end_closed(),
    ;

    /// This end no longer sends.
    fn is_closed(&self) -> (r: bool)
        ensures
            self.end_closed() ==> r,
    ;
}

/// The receiving end of a message bus.
pub trait MessageBusReceiver<T> {
    /// This end was closed.
    spec fn end_closed(&self) -> bool;

    /// Takes a message if one is waiting.
    fn try_recv(&mut self) -> (r: Result<T, MessageBusError<T>>)
        ensures
            final(self).end_closed() == old(self).end_closed(),
    ;

    /// Stops this end from receiving.
    fn close(&mut self)
        ensures
            final(self).end_closed(),
    ;
}

/// Marks a bus of many producers and one consumer.
pub trait MpscMessageBus {}

/// Marks a bus of one producer and one consumer.
pub trait OneshotMessageBus {}

/// A bus of many producers and many consumers.
pub trait BroadcastMessageBus<T> {
    type Subscriber;

    fn subsribe(&self) -> Self::Subscriber;

    fn receiver_count(&self) -> usize;

    fn same_channel(&self, other: &Self) -> bool;
}

/// A bus of one producer and many consumers.
pub trait SpmcMessageBus<T> {
    type Subscriber;

    fn sub(&self) -> Result<Self::Subscriber, MessageBusError<T>>;

    fn receiver_count(&self) -> Result<usize, MessageBusError<T>>;

    fn same_channel(&self, other: &Self) -> Result<bool, MessageBusError<T>>;
}

/// Marks the sending end of a bus of many producers and many consumers.
pub trait BroadcastingMessageBusSender<T> {}

/// Marks the receiving end of a bus of many producers and many consumers.
pub trait BroadcastingMessageBusReceiver {}

/// Marks the sending end of a bus of one producer and many consumers.
pub trait SpmcMessageBusSender<T> {}

/// Marks the receiving end of a bus of one producer and many consumers.
pub trait SpmcMessageBusReceiver {}

/// A component that can be shared between tasks.
pub trait StaticAsyncComponent: Sync + Send + 'static {}

/// A many-producer bus that can be cloned and shared between tasks.
pub trait StaticClonableMpscMQ: MpscMessageBus + Sync + Send + Clone + 'static {}

/// A component that can be cloned and shared between tasks.
pub trait StaticClonableAsyncComponent: Sync + Send + Clone + 'static {}

/// The receiving end of a many-producer bus, shared between tasks.
pub trait StaticMpscMQReceiver: MpscMessageBus + Sync + Send + 'static {}

} // verus!
