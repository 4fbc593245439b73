use data_sync_tool::mq::factory::{get_mq_factory, MQType, SupportedMQImpl};

#[allow(dead_code)]
#[derive(Clone, Copy)]
struct Data {
    field1: i32,
    field2: f64,
}

#[test]
fn it_should_create_a_mspc_channel() {
    let channel_size: usize = 10;
    let mpsc_channel_factory =
        get_mq_factory::<Data>(SupportedMQImpl::InMemoryTokioChannel, MQType::Mpsc);
    let (_mpsc_sender, _mpsc_receiver) = mpsc_channel_factory.create(channel_size);
}
