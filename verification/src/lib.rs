//! Data synchronization engine: rate limiting, task queues, task managers,
//! workers and the message-driven engine that coordinates them.

pub mod ids;
pub mod rate_limiter;
pub mod task;
pub mod task_queue;
pub mod task_manager;
pub mod engine;
pub mod factory;
pub mod tm_traits;
pub mod tm_factory;
pub mod task_executor;
pub mod decoupled;
pub mod mq;
pub mod shared_traits;
pub mod workers;
pub mod worker;
