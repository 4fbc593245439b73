//! Sync workers: a worker that fetches a plan's tasks one by one over web
//! requests, and a worker that streams a plan's data over a websocket.

pub mod errors;
pub mod worker_traits;
pub mod request;
pub mod http_worker;
pub mod websocket_worker;
pub mod factory;
