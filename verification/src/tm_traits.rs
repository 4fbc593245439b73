//! The channels that the task manager talks over, by role: the tasks it
//! sends, and the errors it reports.

use vstd::prelude::*;
use crate::mq::message_bus::{MessageBusReceiver, MessageBusSender, MpscMessageBus, StaticAsyncComponent};
use crate::mq::tokio_channel_mq::{TokioMpscMessageBusReceiver, TokioMpscMessageBusSender};
use crate::task::SyncTask;
use crate::task_manager::TaskManagerError;

verus! {

/// Tasks sent by any producer to a single consumer.
pub trait SyncTaskMPSCSender: MessageBusSender<SyncTask> + MpscMessageBus + StaticAsyncComponent {
    /// Another sender of the same channel.
    fn clone_boxed(&self) -> Box<Self>;
}

impl SyncTaskMPSCSender for TokioMpscMessageBusSender<SyncTask> {
    fn clone_boxed(&self) -> (r: Box<Self>)
        ensures
            r.channel_id == self.channel_id,
    {
        Box::new(self.clone())
    }
}

/// Task manager errors sent to a single consumer.
pub trait TaskManagerErrorMPSCSender: MessageBusSender<TaskManagerError> + MpscMessageBus + StaticAsyncComponent {
    /// Another sender of the same channel.
    fn clone_boxed(&self) -> Box<Self>;
}

impl TaskManagerErrorMPSCSender for TokioMpscMessageBusSender<TaskManagerError> {
    fn clone_boxed(&self) -> (r: Box<Self>)
        ensures
            r.channel_id == self.channel_id,
    {
        Box::new(self.clone())
    }
}

/// Task manager errors received by their single consumer.
pub trait TaskManagerErrorMPSCReceiver: MessageBusReceiver<TaskManagerError> + MpscMessageBus + StaticAsyncComponent {}

impl TaskManagerErrorMPSCReceiver for TokioMpscMessageBusReceiver<TaskManagerError> {}

} // verus!
