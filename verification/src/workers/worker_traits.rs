//! What every sync worker offers, the kinds of worker, and the channels a
//! worker streams data and errors over.

use vstd::prelude::*;
use crate::ids::Id;
use crate::mq::message_bus::{MessageBusReceiver, MessageBusSender, MpscMessageBus, StaticAsyncComponent};
use crate::mq::tokio_channel_mq::{TokioMpscMessageBusReceiver, TokioMpscMessageBusSender};
use crate::shared_traits::StreamingData;
use super::errors::SyncWorkerError;

verus! {

/// Where a worker is: waiting, working on its plan, or stopped.
#[derive(Debug, Clone, Copy, PartialEq, Eq, Structural)]
pub enum WorkerState {
    Idle,
    Working,
    Stopped,
}

impl Default for WorkerState {
    /// A worker starts out waiting.
    fn default() -> (r: Self)
        ensures
            r == WorkerState::Idle,
    {
        WorkerState::Idle
    }
}

/// Commands to a worker.
#[derive(Debug, Clone, Copy, PartialEq, Eq, Structural)]
pub enum WorkerCommand {
    Start,
    Pause,
    Resume,
    Cancel,
    Assign(Id),
}

/// What every sync worker offers besides syncing itself, which waits on
/// the network and is run outside.
pub trait SyncWorker {
    /// The worker waits.
    fn pause(&mut self) -> Result<(), SyncWorkerError>;

    /// The worker stops.
    fn stop(&mut self) -> Result<(), SyncWorkerError>;

    /// The worker takes another plan, stopping first if it was busy.
    fn reassign_sync_plan(&mut self, sync_plan_id: &Id) -> Result<(), SyncWorkerError>;

    /// Where the worker is.
    fn current_state(&self) -> WorkerState;
}

/// Marks a worker that handles long tasks, such as a stream.
pub trait LongTaskHandlingWorker {}

/// Marks a worker that handles short tasks, such as one request.
pub trait ShortTaskHandlingWorker {}

/// A worker of short tasks.
pub trait ShortRunningWorker: SyncWorker + ShortTaskHandlingWorker {}

/// A worker of long tasks.
pub trait LongRunningWorker: SyncWorker + LongTaskHandlingWorker {}

/// Streamed data received by the single consumer of a many-producer channel.
pub trait SyncTaskStreamingDataMPSCReceiver: MessageBusReceiver<StreamingData> + MpscMessageBus + StaticAsyncComponent {}

/// Streamed data sent by any worker to a single consumer.
pub trait SyncTaskStreamingDataMPSCSender: MessageBusSender<StreamingData> + MpscMessageBus + StaticAsyncComponent {}

/// Worker errors received by a single consumer.
pub trait SyncWorkerErrorMessageMPSCReceiver: MessageBusReceiver<SyncWorkerError> + MpscMessageBus + StaticAsyncComponent {}

/// Worker errors sent by any worker to a single consumer.
pub trait SyncWorkerErrorMessageMPSCSender: MessageBusSender<SyncWorkerError> + MpscMessageBus + StaticAsyncComponent {
    /// Another sender of the same channel.
    fn clone_boxed(&self) -> Box<Self>;
}

impl SyncWorkerErrorMessageMPSCSender for TokioMpscMessageBusSender<SyncWorkerError> {
    fn clone_boxed(&self) -> (r: Box<Self>)
        ensures
            r.channel_id == self.channel_id,
    {
        Box::new(self.clone())
    }
}

impl SyncTaskStreamingDataMPSCReceiver for TokioMpscMessageBusReceiver<StreamingData> {}

impl SyncTaskStreamingDataMPSCSender for TokioMpscMessageBusSender<StreamingData> {}

impl SyncWorkerErrorMessageMPSCReceiver for TokioMpscMessageBusReceiver<SyncWorkerError> {}

} // verus!
