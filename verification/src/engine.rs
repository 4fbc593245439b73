//! The message-driven synchronization engine: an engine that takes commands,
//! a task manager that holds each plan's tasks, a supervisor that assigns
//! plans to workers, and workers that fetch tasks and run them.

pub mod commands;
pub mod proxy;
pub mod sync_engine;
pub mod supervisor;
pub mod task_manager;
pub mod worker;
