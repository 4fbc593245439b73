//! The channels that the sync components share, by role: task requests
//! going to the task manager, tasks going to workers, data streamed from
//! workers, worker errors, and failed tasks going back for another try.

use vstd::prelude::*;
use crate::ids::Id;
use crate::task::{GetTaskRequest, SyncTask};
use crate::mq::message_bus::{
    BroadcastingMessageBusReceiver, BroadcastingMessageBusSender, MessageBusReceiver, MessageBusSender,
    MpscMessageBus, SpmcMessageBusReceiver, SpmcMessageBusSender, StaticAsyncComponent,
};
use crate::mq::tokio_channel_mq::{
    TokioBroadcastingMessageBusReceiver, TokioBroadcastingMessageBusSender, TokioMpscMessageBusReceiver,
    TokioSpmcMessageBusReceiver, TokioSpmcMessageBusSender,
};
use crate::workers::errors::SyncWorkerError;

verus! {

/// Tasks coming to the single consumer of a many-producer channel.
pub trait SyncTaskMPSCReceiver: MessageBusReceiver<SyncTask> + MpscMessageBus + StaticAsyncComponent {}

impl SyncTaskMPSCReceiver for TokioMpscMessageBusReceiver<SyncTask> {}

/// Task requests sent by any worker to the task manager.
pub trait TaskRequestMPMCSender: MessageBusSender<GetTaskRequest> + StaticAsyncComponent + BroadcastingMessageBusSender<
    GetTaskRequest,
> {
    /// Another sender of the same channel.
    fn clone_boxed(&self) -> Box<Self>;
}

/// Task requests received by the task manager.
pub trait TaskRequestMPMCReceiver: MessageBusReceiver<GetTaskRequest> + StaticAsyncComponent + BroadcastingMessageBusReceiver {
    /// Another receiver of the same channel.
    fn clone_boxed(&self) -> Box<Self>;
}

impl TaskRequestMPMCSender for TokioBroadcastingMessageBusSender<GetTaskRequest> {
    fn clone_boxed(&self) -> (r: Box<Self>)
        ensures
            r.id == self.id,
            r.channel_id == self.channel_id,
            r.closed == self.closed,
            r.sender is Some == self.sender is Some,
    {
        Box::new(self.clone())
    }
}

impl TaskRequestMPMCReceiver for TokioBroadcastingMessageBusReceiver<GetTaskRequest> {
    fn clone_boxed(&self) -> (r: Box<Self>)
        ensures
            r.channel_id == self.channel_id,
    {
        Box::new(self.clone())
    }
}

/// Tasks sent to any worker.
pub trait SyncTaskMPMCSender: MessageBusSender<SyncTask> + StaticAsyncComponent + BroadcastingMessageBusSender<SyncTask> {}

/// Tasks received by a worker.
pub trait SyncTaskMPMCReceiver: MessageBusReceiver<SyncTask> + StaticAsyncComponent + BroadcastingMessageBusReceiver {
    /// Another receiver of the same channel.
    fn clone_boxed(&self) -> Box<Self>;
}

impl SyncTaskMPMCSender for TokioBroadcastingMessageBusSender<SyncTask> {}

impl SyncTaskMPMCReceiver for TokioBroadcastingMessageBusReceiver<SyncTask> {
    fn clone_boxed(&self) -> (r: Box<Self>)
        ensures
            r.channel_id == self.channel_id,
    {
        Box::new(self.clone())
    }
}

/// A piece of data a worker received for a task of a plan: the data as
/// JSON text, if any, and when it came, in milliseconds since the epoch.
#[derive(Debug, Clone)]
pub struct StreamingData {
    pub sync_plan_id: Id,
    pub task_id: Id,
    pub data: Option<String>,
    pub received_time: i64,
}

impl StreamingData {
    pub fn new(plan_id: Id, task_id: Id, data: Option<String>, received_time: i64) -> (r: StreamingData)
        ensures
            r.sync_plan_id == plan_id,
            r.task_id == task_id,
            r.data == data,
            r.received_time == received_time,
    {
        StreamingData { sync_plan_id: plan_id, task_id, data, received_time }
    }
}

/// Streamed data sent by any worker.
pub trait StreamingDataMPMCSender: MessageBusSender<StreamingData> + StaticAsyncComponent + BroadcastingMessageBusSender<
    StreamingData,
> {}

/// Streamed data received by its consumers.
pub trait StreamingDataMPMCReceiver: MessageBusReceiver<StreamingData> + StaticAsyncComponent + BroadcastingMessageBusReceiver {
    /// Another receiver of the same channel.
    fn clone_boxed(&self) -> Box<Self>;
}

impl StreamingDataMPMCSender for TokioBroadcastingMessageBusSender<StreamingData> {}

impl StreamingDataMPMCReceiver for TokioBroadcastingMessageBusReceiver<StreamingData> {
    fn clone_boxed(&self) -> (r: Box<Self>)
        ensures
            r.channel_id == self.channel_id,
    {
        Box::new(self.clone())
    }
}

/// Worker errors sent by any worker.
pub trait SyncWorkerErrorMPMCSender: MessageBusSender<SyncWorkerError> + StaticAsyncComponent + BroadcastingMessageBusSender<
    SyncWorkerError,
> {}

/// Worker errors received by their consumers.
pub trait SyncWorkerErrorMPMCReceiver: MessageBusReceiver<SyncWorkerError> + StaticAsyncComponent + BroadcastingMessageBusReceiver {
    /// Another receiver of the same channel.
    fn clone_boxed(&self) -> Box<Self>;
}

impl SyncWorkerErrorMPMCSender for TokioBroadcastingMessageBusSender<SyncWorkerError> {}

impl SyncWorkerErrorMPMCReceiver for TokioBroadcastingMessageBusReceiver<SyncWorkerError> {
    fn clone_boxed(&self) -> (r: Box<Self>)
        ensures
            r.channel_id == self.channel_id,
    {
        Box::new(self.clone())
    }
}

/// A failed task on its way back for another try, with its plan's id.
#[derive(Debug)]
pub struct FailedTask {
    pub plan_id: Id,
    pub task: SyncTask,
}

impl Clone for FailedTask {
    fn clone(&self) -> (r: Self)
        ensures
            r.plan_id == self.plan_id,
            r.task.id == self.task.id,
    {
        FailedTask { plan_id: self.plan_id, task: self.task.clone() }
    }
}

/// Failed tasks received for another try.
pub trait FailedTaskSPMCReceiver: MessageBusReceiver<FailedTask> + StaticAsyncComponent + SpmcMessageBusReceiver {
    /// Another receiver of the same channel.
    fn clone_boxed(&self) -> Box<Self>;
}

impl FailedTaskSPMCReceiver for TokioSpmcMessageBusReceiver<FailedTask> {
    fn clone_boxed(&self) -> (r: Box<Self>)
        ensures
            r.channel_id == self.channel_id,
    {
        Box::new(self.clone())
    }
}

/// Failed tasks sent back for another try.
pub trait FailedTaskSPMCSender: MessageBusSender<FailedTask> + StaticAsyncComponent + SpmcMessageBusSender<FailedTask> {}

impl FailedTaskSPMCSender for TokioSpmcMessageBusSender<FailedTask> {}

} // verus!
