//! A worker that syncs a plan over a websocket: it asks the task manager
//! for the plan's task, connects to the task's endpoint, and streams every
//! JSON message that comes as data of the plan's task.
//!
//! The connection, the channels and the waits are run outside; this module
//! decides what the worker asks for, which of its channels it may use, and
//! what each message becomes.

use vstd::prelude::*;
use vstd::string::StringExecFns;
use crate::ids::{Id, new_id, format_id};
use crate::mq::message_bus::MessageBusError;
use crate::shared_traits::StreamingData;
use crate::task::{GetTaskRequest, RequestMethod, SyncTask};
use super::errors::SyncWorkerError;
use super::http_worker::{busy, request_send_failure};
use super::worker_traits::{LongTaskHandlingWorker, SyncWorker, WorkerState};

verus! {

/// What `serde_json::from_str` makes of a text as a JSON value: nothing
/// when it parses, else the text of its error.
pub uninterp spec fn json_parse_error(text: Seq<char>) -> Option<Seq<char>>;

/// `serde_json::from_str` into a JSON value, asked whether the text
/// parses and, if not, why; the answer is the name `json_parse_error` of
/// its argument.
#[verifier::external_body]
pub(crate) fn json_error(text: &str) -> (r: Option<String>)
    ensures
        r is None <==> json_parse_error(text@) is None,
        r matches Some(e) ==> json_parse_error(text@) == Some(e@),
{
    match serde_json::from_str::<serde_json::Value>(text) {
        Ok(_) => None,
        Err(e) => Some(e.to_string()),
    }
}

/// The text of a task that a websocket worker cannot run.
pub open spec fn websocket_only_text() -> Seq<char> {
    "Request method not supported!"@
}

/// A websocket worker; each of its channels is there until it is closed.
pub struct WebsocketSyncWorker<TRS, TTR, SDS, ES> {
    pub id: Id,
    pub state: WorkerState,
    pub task_request_sender: Option<TRS>,
    pub todo_task_receiver: Option<TTR>,
    pub data_sender: Option<SDS>,
    pub error_sender: Option<ES>,
    pub assigned_sync_plan_id: Option<Id>,
}

impl<TRS, TTR, SDS, ES> LongTaskHandlingWorker for WebsocketSyncWorker<TRS, TTR, SDS, ES> {}

impl<TRS, TTR, SDS, ES> WebsocketSyncWorker<TRS, TTR, SDS, ES> {
    /// A waiting worker with a fresh random id, all its channels and no
    /// plan.
    pub fn new(task_request_sender: TRS, todo_task_receiver: TTR, data_sender: SDS, error_sender: ES) -> (r: Self)
        ensures
            r.state == WorkerState::Idle,
            r.assigned_sync_plan_id is None,
            r.task_request_sender == Some(task_request_sender),
            r.todo_task_receiver == Some(todo_task_receiver),
            r.data_sender == Some(data_sender),
            r.error_sender == Some(error_sender),
    {
        WebsocketSyncWorker {
            id: new_id(),
            state: WorkerState::Idle,
            task_request_sender: Some(task_request_sender),
            todo_task_receiver: Some(todo_task_receiver),
            data_sender: Some(data_sender),
            error_sender: Some(error_sender),
            assigned_sync_plan_id: None,
        }
    }

    /// The worker works on a plan.
    pub fn start_working(&mut self, sync_plan_id: Id)
        ensures
            *final(self) == (WebsocketSyncWorker {
                state: WorkerState::Working,
                assigned_sync_plan_id: Some(sync_plan_id),
                ..*old(self)
            }),
    {
        self.state = WorkerState::Working;
        self.assigned_sync_plan_id = Some(sync_plan_id);
    }

    /// The worker waits; its plan stays.
    pub fn wait(&mut self)
        ensures
            *final(self) == (WebsocketSyncWorker { state: WorkerState::Idle, ..*old(self) }),
    {
        self.state = WorkerState::Idle;
    }

    /// The worker stops and lets its plan go.
    pub fn halt(&mut self)
        ensures
            *final(self) == (WebsocketSyncWorker {
                state: WorkerState::Stopped,
                assigned_sync_plan_id: None,
                ..*old(self)
            }),
    {
        self.state = WorkerState::Stopped;
        self.assigned_sync_plan_id = None;
    }

    /// The worker works on an assigned plan.
    pub fn is_busy(&self) -> (r: bool)
        ensures
            r == busy(self.state, self.assigned_sync_plan_id),
    {
        self.state == WorkerState::Working && self.assigned_sync_plan_id.is_some()
    }

    /// Lets every channel go; the worker is stopped.
    pub fn close_all_channels(&mut self)
        ensures
            *final(self) == (WebsocketSyncWorker {
                data_sender: None,
                todo_task_receiver: None,
                task_request_sender: None,
                error_sender: None,
                state: WorkerState::Stopped,
                ..*old(self)
            }),
    {
        self.data_sender = None;
        self.todo_task_receiver = None;
        self.task_request_sender = None;
        self.error_sender = None;
        self.state = WorkerState::Stopped;
    }

    /// The data channel, unless the worker stopped or let it go.
    pub fn inner_data_sender(&self) -> (r: Result<&SDS, SyncWorkerError>)
        ensures
            (self.state == WorkerState::Stopped || self.data_sender is None) ==> r == Err::<&SDS, SyncWorkerError>(
                SyncWorkerError::WorkerStopped,
            ),
            !(self.state == WorkerState::Stopped || self.data_sender is None) ==> r == Ok::<&SDS, SyncWorkerError>(
                &self.data_sender->0,
            ),
    {
        if self.state == WorkerState::Stopped {
            return Err(SyncWorkerError::WorkerStopped);
        }
        match &self.data_sender {
            Some(sender) => Ok(sender),
            None => Err(SyncWorkerError::WorkerStopped),
        }
    }

    /// The task request channel, unless the worker let it go.
    pub fn inner_task_request_sender(&self) -> (r: Result<&TRS, SyncWorkerError>)
        ensures
            r == (match &self.task_request_sender {
                Some(sender) => Ok::<&TRS, SyncWorkerError>(sender),
                None => Err(SyncWorkerError::WorkerStopped),
            }),
    {
        match &self.task_request_sender {
            Some(sender) => Ok(sender),
            None => Err(SyncWorkerError::WorkerStopped),
        }
    }

    /// The task channel, unless the worker let it go.
    pub fn inner_todo_task_receiver(&self) -> (r: Result<&TTR, SyncWorkerError>)
        ensures
            r == (match &self.todo_task_receiver {
                Some(receiver) => Ok::<&TTR, SyncWorkerError>(receiver),
                None => Err(SyncWorkerError::WorkerStopped),
            }),
    {
        match &self.todo_task_receiver {
            Some(receiver) => Ok(receiver),
            None => Err(SyncWorkerError::WorkerStopped),
        }
    }

    /// The error channel, unless the worker let it go.
    pub fn inner_error_sender(&self) -> (r: Result<&ES, SyncWorkerError>)
        ensures
            r == (match &self.error_sender {
                Some(sender) => Ok::<&ES, SyncWorkerError>(sender),
                None => Err(SyncWorkerError::WorkerStopped),
            }),
    {
        match &self.error_sender {
            Some(sender) => Ok(sender),
            None => Err(SyncWorkerError::WorkerStopped),
        }
    }

    /// The request for the task of the worker's plan: none when the worker
    /// is not busy, and none when it let its request channel go.
    pub fn task_request(&self) -> (r: Result<GetTaskRequest, SyncWorkerError>)
        ensures
            !busy(self.state, self.assigned_sync_plan_id) ==> r == Err::<GetTaskRequest, SyncWorkerError>(
                SyncWorkerError::NoTaskAssigned,
            ),
            busy(self.state, self.assigned_sync_plan_id) && self.task_request_sender is None ==> r == Err::<
                GetTaskRequest,
                SyncWorkerError,
            >(SyncWorkerError::WorkerStopped),
            busy(self.state, self.assigned_sync_plan_id) && self.task_request_sender is Some ==> r == Ok::<
                GetTaskRequest,
                SyncWorkerError,
            >(GetTaskRequest { sync_plan_id: self.assigned_sync_plan_id->0 }),
    {
        if !self.is_busy() {
            return Err(SyncWorkerError::NoTaskAssigned);
        }
        let plan_id = match self.assigned_sync_plan_id {
            Some(p) => p,
            None => {
                return Err(SyncWorkerError::NoTaskAssigned);
            },
        };
        match self.inner_task_request_sender() {
            Ok(_) => Ok(GetTaskRequest::new(plan_id)),
            Err(e) => Err(e),
        }
    }

    /// The worker error for a task request that could not be sent.
    pub fn request_send_error<T>(&self, e: MessageBusError<T>) -> (r: SyncWorkerError)
        ensures
            request_send_failure(self.id, e is SenderClosed, r),
    {
        let mut text = String::from_str("Worker ");
        let id = format_id(self.id);
        text.append(id.as_str());
        match e {
            MessageBusError::SenderClosed => text.append("'s request sender channel is closed unexpectedly!"),
            _ => text.append(" failed to request a task!"),
        }
        SyncWorkerError::SendTaskRequestFailed(text)
    }

    /// The task that came in answer to a request: none when the worker let
    /// its task channel go, or when none came.
    pub fn received_task(&self, received: Option<SyncTask>) -> (r: Result<SyncTask, SyncWorkerError>)
        ensures
            self.todo_task_receiver is None ==> r == Err::<SyncTask, SyncWorkerError>(SyncWorkerError::WorkerStopped),
            self.todo_task_receiver is Some ==> r == (match received {
                Some(task) => Ok::<SyncTask, SyncWorkerError>(task),
                None => Err(SyncWorkerError::NoTaskAssigned),
            }),
    {
        match self.inner_todo_task_receiver() {
            Err(e) => Err(e),
            Ok(_) => match received {
                Some(task) => Ok(task),
                None => Err(SyncWorkerError::NoTaskAssigned),
            },
        }
    }

    /// Only a websocket task can be run here; for any other the worker
    /// waits and the task is refused.
    pub fn validate_task_spec(&mut self, sync_task: &SyncTask) -> (r: Result<(), SyncWorkerError>)
        ensures
            sync_task.spec.request_method == RequestMethod::Websocket ==> r is Ok && *final(self) == *old(self),
            sync_task.spec.request_method != RequestMethod::Websocket ==> (r matches Err(
                SyncWorkerError::BuildRequestFailed(text),
            ) && text@ == websocket_only_text()) && *final(self) == (WebsocketSyncWorker {
                state: WorkerState::Idle,
                ..*old(self)
            }),
    {
        if sync_task.spec.request_method != RequestMethod::Websocket {
            self.wait();
            Err(SyncWorkerError::BuildRequestFailed(String::from_str("Request method not supported!")))
        } else {
            Ok(())
        }
    }

    /// A message from the endpoint as JSON: the text when it parses, else
    /// the parse error.
    pub fn try_parse_message(&self, message: &str) -> (r: Result<String, SyncWorkerError>)
        ensures
            json_parse_error(message@) is None ==> (r matches Ok(data) && data@ == message@),
            json_parse_error(message@) matches Some(e) ==> (r matches Err(SyncWorkerError::JsonParseFailed(text))
                && text@ == e),
    {
        match json_error(message) {
            None => Ok(String::from_str(message)),
            Some(e) => Err(SyncWorkerError::JsonParseFailed(e)),
        }
    }

    /// The data to stream for a task: refused when the worker stopped or
    /// let its data channel go, and when it has no plan.
    pub fn stream_data(&self, task_id: Id, data: String, now: i64) -> (r: Result<StreamingData, SyncWorkerError>)
        ensures
            (self.state == WorkerState::Stopped || self.data_sender is None) ==> r == Err::<
                StreamingData,
                SyncWorkerError,
            >(SyncWorkerError::WorkerStopped),
            !(self.state == WorkerState::Stopped || self.data_sender is None) && self.assigned_sync_plan_id is None
                ==> r == Err::<StreamingData, SyncWorkerError>(SyncWorkerError::NoTaskAssigned),
            !(self.state == WorkerState::Stopped || self.data_sender is None) && self.assigned_sync_plan_id is Some
                ==> r == Ok::<StreamingData, SyncWorkerError>(
                StreamingData {
                    sync_plan_id: self.assigned_sync_plan_id->0,
                    task_id,
                    data: Some(data),
                    received_time: now,
                },
            ),
    {
        match self.inner_data_sender() {
            Err(e) => Err(e),
            Ok(_) => match self.assigned_sync_plan_id {
                None => Err(SyncWorkerError::NoTaskAssigned),
                Some(plan_id) => Ok(StreamingData::new(plan_id, task_id, Some(data), now)),
            },
        }
    }

    /// What a text message from the endpoint becomes: data to stream when
    /// it is JSON and the worker can stream it; otherwise nothing, the
    /// message being dropped.
    pub fn on_text_message(&self, task_id: Id, message: &str, now: i64) -> (r: Option<StreamingData>)
        ensures
            r is Some <==> (json_parse_error(message@) is None && self.state != WorkerState::Stopped
                && self.data_sender is Some && self.assigned_sync_plan_id is Some),
            r matches Some(d) ==> d.sync_plan_id == self.assigned_sync_plan_id->0 && d.task_id == task_id
                && (d.data matches Some(text) && text@ == message@) && d.received_time == now,
    {
        match self.try_parse_message(message) {
            Err(_) => None,
            Ok(data) => match self.stream_data(task_id, data, now) {
                Ok(d) => Some(d),
                Err(_) => None,
            },
        }
    }

    /// The worker error for streamed data that could not be sent; the bus
    /// error's text is empty.
    pub fn stream_send_error<T>(&self, e: MessageBusError<T>) -> (r: SyncWorkerError)
        ensures
            r matches SyncWorkerError::WSStreamDataSendFailed(text) && text@ == Seq::<char>::empty(),
    {
        SyncWorkerError::WSStreamDataSendFailed(e.message())
    }
}

impl<TRS, TTR, SDS, ES> SyncWorker for WebsocketSyncWorker<TRS, TTR, SDS, ES> {
    fn pause(&mut self) -> (r: Result<(), SyncWorkerError>)
        ensures
            r matches Ok(_),
            *final(self) == (WebsocketSyncWorker { state: WorkerState::Idle, ..*old(self) }),
    {
        self.wait();
        Ok(())
    }

    /// Lets every channel go, then stops and lets the plan go.
    fn stop(&mut self) -> (r: Result<(), SyncWorkerError>)
        ensures
            r matches Ok(_),
            *final(self) == (WebsocketSyncWorker {
                data_sender: None,
                todo_task_receiver: None,
                task_request_sender: None,
                error_sender: None,
                state: WorkerState::Stopped,
                assigned_sync_plan_id: None,
                ..*old(self)
            }),
    {
        self.close_all_channels();
        self.halt();
        Ok(())
    }

    /// A busy worker stops first; either way the plan is the new one.
    fn reassign_sync_plan(&mut self, sync_plan_id: &Id) -> (r: Result<(), SyncWorkerError>)
        ensures
            r matches Ok(_),
            final(self).assigned_sync_plan_id == Some(*sync_plan_id),
            final(self).state == (if busy(old(self).state, old(self).assigned_sync_plan_id) {
                WorkerState::Stopped
            } else {
                old(self).state
            }),
            final(self).id == old(self).id,
    {
        if self.is_busy() {
            self.halt();
        }
        self.assigned_sync_plan_id = Some(*sync_plan_id);
        Ok(())
    }

    fn current_state(&self) -> (r: WorkerState)
        ensures
            r == self.state,
    {
        self.state
    }
}

} // verus!
