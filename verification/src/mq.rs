//! Message buses: the interfaces that the sync components talk through, the
//! in-memory channels that implement them, and a factory that makes them.

pub mod message_bus;
pub mod tokio_channel_mq;
pub mod factory;
