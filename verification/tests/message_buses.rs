use data_sync_tool::mq::factory::{get_mq_factory, get_tokio_mq_factory, MQType, MqReceiver, MqSender, SupportedMQImpl, TokioMQFactory};
use data_sync_tool::mq::message_bus::{
    MessageBusError, MessageBusFailureCause, MessageBusReceiver, MessageBusSender, SpmcMessageBus,
};
use data_sync_tool::mq::tokio_channel_mq::{
    create_tokio_broadcasting_channel, create_tokio_mpsc_channel, create_tokio_spmc_channel,
};

#[test]
fn ends_of_a_channel_share_its_id() {
    let (tx, rx) = create_tokio_mpsc_channel::<u32>(4);
    assert_eq!(tx.channel_id, rx.channel_id);
    let (tx2, _rx2) = create_tokio_mpsc_channel::<u32>(4);
    assert_ne!(tx.channel_id, tx2.channel_id);
    let (stx, srx) = create_tokio_spmc_channel::<u32>(4);
    assert_eq!(stx.channel_id, srx.channel_id);
    let (btx, brx) = create_tokio_broadcasting_channel::<u32>(4);
    assert_eq!(btx.channel_id, brx.channel_id);
}

#[test]
fn bounded_channel_hands_back_what_it_cannot_take() {
    let (tx, mut rx) = create_tokio_mpsc_channel::<u32>(1);
    assert!(tx.try_send(1).is_ok());
    match tx.try_send(2) {
        Err(MessageBusError::SendFailed(m, MessageBusFailureCause::Full)) => assert_eq!(m, 2),
        _ => panic!("a full channel refuses"),
    }
    assert_eq!(rx.try_recv().ok(), Some(1));
    assert!(matches!(rx.try_recv(), Err(MessageBusError::ReceiveFailed(_))));
    rx.close();
    match tx.try_send(3) {
        Err(MessageBusError::SendFailed(m, MessageBusFailureCause::Closed)) => assert_eq!(m, 3),
        _ => panic!("a closed channel refuses"),
    }
}

#[test]
fn closed_broadcast_ends_refuse() {
    let (mut tx, mut rx) = create_tokio_spmc_channel::<u32>(4);
    assert!(tx.try_send(5).is_ok());
    assert_eq!(rx.try_recv().ok(), Some(5));
    let mut other = tx.sub().ok().unwrap();
    assert_eq!(other.channel_id, tx.channel_id);
    assert!(tx.try_send(6).is_ok());
    assert_eq!(other.try_recv().ok(), Some(6));
    tx.close();
    assert!(tx.is_closed());
    assert!(matches!(tx.try_send(7), Err(MessageBusError::SenderClosed)));
    assert!(matches!(tx.sub(), Err(MessageBusError::SenderClosed)));
    rx.close();
    assert!(matches!(rx.try_recv(), Err(MessageBusError::ReceiverClosed)));
    let copy = rx.clone();
    assert!(copy.closed);
    assert_eq!(copy.channel_id, rx.channel_id);

    let (mut btx, _brx) = create_tokio_broadcasting_channel::<u32>(4);
    btx.close();
    assert!(matches!(btx.try_send(1), Err(MessageBusError::ReceiverClosed)));
}

#[test]
fn broadcast_without_receivers_hands_the_message_back() {
    let (tx, rx) = create_tokio_broadcasting_channel::<u32>(2);
    drop(rx);
    match tx.try_send(9) {
        Err(MessageBusError::SendFailed(m, MessageBusFailureCause::Unknown)) => assert_eq!(m, 9),
        _ => panic!("no receiver listens"),
    }
}

#[test]
fn factories_make_channels_of_their_kind() {
    let f = get_mq_factory::<u8>(SupportedMQImpl::InMemoryTokioChannel, MQType::Spmc);
    let (s, r) = f.create(3);
    assert!(matches!(s, MqSender::Spmc(_)));
    assert!(matches!(r, MqReceiver::Spmc(_)));
    let f = get_mq_factory::<u8>(SupportedMQImpl::InMemoryTokioChannel, MQType::Broadcast);
    let (s, mut r) = f.create(3);
    assert!(s.try_send(1).is_ok());
    assert_eq!(r.try_recv().ok(), Some(1));
    assert!(matches!(get_tokio_mq_factory::<u8>(MQType::Mpsc), TokioMQFactory::MpscFactory(_)));
    assert!(matches!(get_tokio_mq_factory::<u8>(MQType::Broadcast), TokioMQFactory::BroadcastFactory(_)));
}

#[test]
fn bus_errors_say_nothing_more() {
    let e: MessageBusError<u8> = MessageBusError::LockAcquistionFailed;
    assert_eq!(e.message(), "");
}

#[test]
fn closed_ends_of_any_kind_refuse() {
    let factory = get_mq_factory::<u32>(SupportedMQImpl::InMemoryTokioChannel, MQType::Spmc);
    let (mut tx, mut rx) = factory.create(4);
    tx.close();
    assert!(tx.is_closed());
    assert!(matches!(tx.try_send(1), Err(MessageBusError::SenderClosed)));
    rx.close();
    assert!(matches!(rx.try_recv(), Err(MessageBusError::ReceiverClosed)));

    let factory = get_mq_factory::<u32>(SupportedMQImpl::InMemoryTokioChannel, MQType::Broadcast);
    let (mut tx, _rx) = factory.create(4);
    assert!(!tx.is_closed());
    tx.close();
    assert!(tx.is_closed());
    assert!(matches!(tx.try_send(1), Err(MessageBusError::ReceiverClosed)));
}

#[test]
fn cloned_senders_keep_their_channel() {
    let (tx, mut rx) = create_tokio_mpsc_channel::<u32>(4);
    let tx2 = tx.clone();
    assert_eq!(tx2.channel_id, tx.channel_id);
    assert!(tx2.try_send(7).is_ok());
    assert_eq!(rx.try_recv().ok(), Some(7));
    let (btx, _brx) = create_tokio_broadcasting_channel::<u32>(4);
    let btx2 = btx.clone();
    assert_eq!(btx2.id, btx.id);
    assert_eq!(btx2.channel_id, btx.channel_id);
    assert!(!btx2.closed);
}

#[test]
fn closed_bounded_ends_say_so() {
    let (mut tx, mut rx) = create_tokio_mpsc_channel::<u32>(4);
    assert!(tx.try_send(1).is_ok());
    assert!(!tx.is_closed());
    tx.close();
    assert!(tx.is_closed());
    match tx.try_send(2) {
        Err(MessageBusError::SendFailed(m, MessageBusFailureCause::Closed)) => assert_eq!(m, 2),
        _ => panic!("a closed end refuses"),
    }
    rx.close();
    assert!(rx.closed);
    assert_eq!(rx.try_recv().ok(), Some(1));
    assert!(matches!(rx.try_recv(), Err(MessageBusError::ReceiveFailed(_))));
}

#[test]
fn factories_hand_out_open_ends() {
    for kind in [MQType::Mpsc, MQType::Spmc, MQType::Broadcast] {
        let factory = get_mq_factory::<u32>(SupportedMQImpl::InMemoryTokioChannel, kind);
        let (tx, _rx) = factory.create(4);
        assert!(!tx.is_closed());
    }
}
