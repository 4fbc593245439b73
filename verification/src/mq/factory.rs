//! Factories of message buses: pick the implementation and the kind of
//! channel once, then make channels of any size.

use vstd::prelude::*;
use core::marker::PhantomData;
use crate::ids::Id;
use super::message_bus::{MessageBusError, MessageBusReceiver, MessageBusSender};
use super::tokio_channel_mq::{
    TokioBroadcastingMessageBusReceiver, TokioBroadcastingMessageBusSender, TokioMpscMessageBusReceiver,
    TokioMpscMessageBusSender, TokioSpmcMessageBusReceiver, TokioSpmcMessageBusSender,
    create_tokio_broadcasting_channel, create_tokio_mpsc_channel, create_tokio_spmc_channel,
    broadcasting_send_outcome, mpsc_receive_outcome, mpsc_sender_send_outcome, receive_outcome, spmc_send_outcome,
};

verus! {

/// The implementations of a message bus.
#[derive(Debug, Clone, Copy, PartialEq, Eq, Structural)]
pub enum SupportedMQImpl {
    InMemoryTokioChannel,
}

/// The kinds of channel.
#[derive(Debug, Clone, Copy, PartialEq, Eq, Structural)]
pub enum MQType {
    Mpsc,
    Spmc,
    Broadcast,
}

/// A size that a channel of this kind can be made with: at least one place,
/// and no more than the channel takes.
pub open spec fn channel_size_ok(mq_type: MQType, n: usize) -> bool {
    &&& 0 < n
    &&& match mq_type {
        MQType::Mpsc => n <= usize::MAX / 8,
        _ => n <= usize::MAX / 2,
    }
}

/// Makes bounded many-producer channels.
pub struct TokioMpscFactory<T> {
    pub marker: PhantomData<T>,
}

impl<T> TokioMpscFactory<T> {
    /// A channel of `n` places, whose ends are open and share their
    /// channel id.
    pub fn create(&self, n: usize) -> (r: (TokioMpscMessageBusSender<T>, TokioMpscMessageBusReceiver<T>))
        requires
            channel_size_ok(MQType::Mpsc, n),
        ensures
            r.0.channel_id == r.1.channel_id,
            !r.0.closed && !r.1.closed,
    {
        create_tokio_mpsc_channel(n)
    }
}

/// Makes one-producer broadcast channels.
pub struct TokioSpmcFactory<T> {
    pub marker: PhantomData<T>,
}

impl<T: Clone> TokioSpmcFactory<T> {
    /// A channel keeping `n` messages, whose ends are open and share their
    /// channel id.
    pub fn create(&self, n: usize) -> (r: (TokioSpmcMessageBusSender<T>, TokioSpmcMessageBusReceiver<T>))
        requires
            channel_size_ok(MQType::Spmc, n),
        ensures
            r.0.channel_id == r.1.channel_id,
            r.0.sender is Some && !r.0.closed,
            r.1.receiver is Some && !r.1.closed,
    {
        create_tokio_spmc_channel(n)
    }
}

/// Makes many-producer broadcast channels.
pub struct TokioBroadcastingFactory<T> {
    pub marker: PhantomData<T>,
}

impl<T: Clone> TokioBroadcastingFactory<T> {
    /// A channel keeping `n` messages, whose ends are open and share their
    /// channel id.
    pub fn create(&self, n: usize) -> (r: (
        TokioBroadcastingMessageBusSender<T>,
        TokioBroadcastingMessageBusReceiver<T>,
    ))
        requires
            channel_size_ok(MQType::Broadcast, n),
        ensures
            r.0.channel_id == r.1.channel_id,
            r.0.sender is Some && !r.0.closed,
            r.1.receiver is Some && !r.1.closed,
    {
        create_tokio_broadcasting_channel(n)
    }
}

pub fn create_tokio_mpsc_factory<T>() -> (r: TokioMpscFactory<T>) {
    TokioMpscFactory { marker: PhantomData }
}

pub fn create_tokio_spmc_factory<T: Clone>() -> (r: TokioSpmcFactory<T>) {
    TokioSpmcFactory { marker: PhantomData }
}

pub fn create_tokio_broadcast_channel_factory<T: Clone>() -> (r: TokioBroadcastingFactory<T>) {
    TokioBroadcastingFactory { marker: PhantomData }
}

/// A factory of tokio channels of one kind.
pub enum TokioMQFactory<T> {
    MpscFactory(TokioMpscFactory<T>),
    SpmcFactory(TokioSpmcFactory<T>),
    BroadcastFactory(TokioBroadcastingFactory<T>),
}

/// The factory of tokio channels of a kind.
pub fn get_tokio_mq_factory<T: Clone>(mq_type: MQType) -> (r: TokioMQFactory<T>)
    ensures
        mq_type == MQType::Mpsc <==> r is MpscFactory,
        mq_type == MQType::Spmc <==> r is SpmcFactory,
        mq_type == MQType::Broadcast <==> r is BroadcastFactory,
{
    match mq_type {
        MQType::Mpsc => TokioMQFactory::MpscFactory(create_tokio_mpsc_factory()),
        MQType::Spmc => TokioMQFactory::SpmcFactory(create_tokio_spmc_factory()),
        MQType::Broadcast => TokioMQFactory::BroadcastFactory(create_tokio_broadcast_channel_factory()),
    }
}

/// The sending end of a channel of any kind.
#[verifier::reject_recursive_types(T)]
pub enum MqSender<T> {
    Mpsc(TokioMpscMessageBusSender<T>),
    Spmc(TokioSpmcMessageBusSender<T>),
    Broadcast(TokioBroadcastingMessageBusSender<T>),
}

/// The receiving end of a channel of any kind.
#[verifier::reject_recursive_types(T)]
pub enum MqReceiver<T> {
    Mpsc(TokioMpscMessageBusReceiver<T>),
    Spmc(TokioSpmcMessageBusReceiver<T>),
    Broadcast(TokioBroadcastingMessageBusReceiver<T>),
}

impl<T> MqSender<T> {
    /// The id of the channel this end sends on.
    pub open spec fn channel(&self) -> Id {
        match self {
            MqSender::Mpsc(s) => s.channel_id,
            MqSender::Spmc(s) => s.channel_id,
            MqSender::Broadcast(s) => s.channel_id,
        }
    }
}

impl<T> MqReceiver<T> {
    /// The id of the channel this end receives from.
    pub open spec fn channel(&self) -> Id {
        match self {
            MqReceiver::Mpsc(r) => r.channel_id,
            MqReceiver::Spmc(r) => r.channel_id,
            MqReceiver::Broadcast(r) => r.channel_id,
        }
    }
}

impl<T: Clone> MessageBusSender<T> for MqSender<T> {
    open spec fn end_closed(&self) -> bool {
        match self {
            MqSender::Mpsc(s) => s.closed,
            MqSender::Spmc(s) => s.spec_is_closed(),
            MqSender::Broadcast(s) => s.closed,
        }
    }

    /// Sends through the end's own kind of channel; a refused message comes
    /// back with its cause.
    fn try_send(&self, message: T) -> (r: Result<(), MessageBusError<T>>)
        ensures
            match *self {
                MqSender::Mpsc(s) => mpsc_sender_send_outcome(s, message, r),
                MqSender::Spmc(s) => spmc_send_outcome(s, message, r),
                MqSender::Broadcast(s) => broadcasting_send_outcome(s, message, r),
            },
    {
        match self {
            MqSender::Mpsc(s) => s.try_send(message),
            MqSender::Spmc(s) => s.try_send(message),
            MqSender::Broadcast(s) => s.try_send(message),
        }
    }

    /// Closes the end by its own kind: a bounded sender is marked closed
    /// and refuses every send as closed; a broadcast sender lets its channel
    /// go and refuses every send.
    fn close(&mut self)
        ensures
            final(self).channel() == old(self).channel(),
            match (*old(self), *final(self)) {
                (MqSender::Mpsc(a), MqSender::Mpsc(b)) => b == (TokioMpscMessageBusSender { closed: true, ..a }),
                (MqSender::Spmc(_), MqSender::Spmc(b)) => b.spec_is_closed(),
                (MqSender::Broadcast(a), MqSender::Broadcast(b)) => b.id == a.id && b.closed && b.sender is None,
                _ => false,
            },
    {
        match self {
            MqSender::Mpsc(s) => s.close(),
            MqSender::Spmc(s) => s.close(),
            MqSender::Broadcast(s) => s.close(),
        }
    }

    /// Whether the end no longer sends: a broadcast end says so once it was
    /// closed; a bounded end once it was closed, or when its channel's
    /// receiver went.
    fn is_closed(&self) -> (r: bool)
        ensures
            self matches MqSender::Mpsc(s) ==> (s.closed ==> r),
            self matches MqSender::Spmc(s) ==> r == s.spec_is_closed(),
            self matches MqSender::Broadcast(s) ==> r == s.closed,
    {
        match self {
            MqSender::Mpsc(s) => s.is_closed(),
            MqSender::Spmc(s) => s.is_closed(),
            MqSender::Broadcast(s) => s.is_closed(),
        }
    }
}

impl<T: Clone> MessageBusReceiver<T> for MqReceiver<T> {
    open spec fn end_closed(&self) -> bool {
        match self {
            MqReceiver::Mpsc(r) => r.closed,
            MqReceiver::Spmc(r) => r.closed,
            MqReceiver::Broadcast(r) => r.closed,
        }
    }

    /// Receives by the end's own kind of channel.
    fn try_recv(&mut self) -> (r: Result<T, MessageBusError<T>>)
        ensures
            final(self).channel() == old(self).channel(),
            match (*old(self), *final(self)) {
                (MqReceiver::Mpsc(a), MqReceiver::Mpsc(b)) => b.closed == a.closed && mpsc_receive_outcome(r),
                (MqReceiver::Spmc(a), MqReceiver::Spmc(b)) => {
                    &&& b.id == a.id
                    &&& b.closed == a.closed
                    &&& (b.receiver is Some == a.receiver is Some)
                    &&& receive_outcome(a.closed, a.receiver is Some, r)
                },
                (MqReceiver::Broadcast(a), MqReceiver::Broadcast(b)) => {
                    &&& b.id == a.id
                    &&& b.closed == a.closed
                    &&& (b.receiver is Some == a.receiver is Some)
                    &&& receive_outcome(a.closed, a.receiver is Some, r)
                },
                _ => false,
            },
    {
        match self {
            MqReceiver::Mpsc(rx) => rx.try_recv(),
            MqReceiver::Spmc(rx) => rx.try_recv(),
            MqReceiver::Broadcast(rx) => rx.try_recv(),
        }
    }

    /// Closes the end by its own kind: a bounded receiver closes its
    /// channel, a broadcast receiver lets its channel go and refuses every
    /// receive.
    fn close(&mut self)
        ensures
            final(self).channel() == old(self).channel(),
            match (*old(self), *final(self)) {
                (MqReceiver::Mpsc(_), MqReceiver::Mpsc(b)) => b.closed,
                (MqReceiver::Spmc(a), MqReceiver::Spmc(b)) => b.id == a.id && b.closed && b.receiver is None,
                (MqReceiver::Broadcast(a), MqReceiver::Broadcast(b)) => b.id == a.id && b.closed && b.receiver
                    is None,
                _ => false,
            },
    {
        match self {
            MqReceiver::Mpsc(rx) => rx.close(),
            MqReceiver::Spmc(rx) => rx.close(),
            MqReceiver::Broadcast(rx) => rx.close(),
        }
    }
}

/// A factory of channels of one implementation and one kind.
pub struct MqFactory<T> {
    pub mq_impl: SupportedMQImpl,
    pub mq_type: MQType,
    pub marker: PhantomData<T>,
}

impl<T: Clone> MqFactory<T> {
    /// A channel of the factory's kind with `n` places, whose ends are of
    /// that kind, open, and share their channel id.
    pub fn create(&self, n: usize) -> (r: (MqSender<T>, MqReceiver<T>))
        requires
            channel_size_ok(self.mq_type, n),
        ensures
            r.0.channel() == r.1.channel(),
            !r.0.end_closed() && !r.1.end_closed(),
            self.mq_type == MQType::Mpsc ==> r.0 is Mpsc && r.1 is Mpsc,
            self.mq_type == MQType::Spmc ==> r.0 is Spmc && r.1 is Spmc,
            self.mq_type == MQType::Broadcast ==> r.0 is Broadcast && r.1 is Broadcast,
    {
        match self.mq_impl {
            SupportedMQImpl::InMemoryTokioChannel => match self.mq_type {
                MQType::Mpsc => {
                    let (sender, receiver) = create_tokio_mpsc_factory::<T>().create(n);
                    (MqSender::Mpsc(sender), MqReceiver::Mpsc(receiver))
                },
                MQType::Spmc => {
                    let (sender, receiver) = create_tokio_spmc_factory::<T>().create(n);
                    (MqSender::Spmc(sender), MqReceiver::Spmc(receiver))
                },
                MQType::Broadcast => {
                    let (sender, receiver) = create_tokio_broadcast_channel_factory::<T>().create(n);
                    (MqSender::Broadcast(sender), MqReceiver::Broadcast(receiver))
                },
            },
        }
    }
}

/// The factory of channels of an implementation and a kind.
pub fn get_mq_factory<T: Send + Clone + 'static>(mq_impl: SupportedMQImpl, mq_type: MQType) -> (r: MqFactory<T>)
    ensures
        r.mq_impl == mq_impl,
        r.mq_type == mq_type,
{
    MqFactory { mq_impl, mq_type, marker: PhantomData }
}

} // verus!
