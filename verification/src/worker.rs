//! The first design of sync workers, which are handed one task at a time:
//! a worker that runs a task's web request, and a worker that streams a
//! task's data from a websocket until it is told to stop.
//!
//! The requests, the socket and the channels' waits are run outside; this
//! module decides what each step does to the task and to the worker, and
//! what is sent on.

use vstd::prelude::*;
use crate::task::{RequestMethod, SyncTask, TaskStatus};
use crate::mq::message_bus::{MessageBusReceiver, MessageBusSender};
use crate::workers::errors::{SyncWorkerError, method_not_supported_text};
use crate::workers::http_worker::RequestOutcome;
use crate::workers::request::{HttpRequestPlan, build_headers, build_request, plans_task_request};
use crate::workers::websocket_worker::json_parse_error;
pub use crate::workers::errors::RequestMethodNotSupported;

verus! {

/// Where a worker is: asleep between tasks, working, or stopped.
#[derive(Debug, Clone, Copy, PartialEq, Eq, Structural)]
pub enum WorkerState {
    Sleeping,
    Working,
    Stopped,
}

impl Default for WorkerState {
    /// A worker starts out asleep.
    fn default() -> (r: Self)
        ensures
            r == WorkerState::Sleeping,
    {
        WorkerState::Sleeping
    }
}

/// Marks a worker that runs for a long time, such as a stream.
pub trait LongRunningWorker {}

/// Marks a worker that handles short tasks, such as one request.
pub trait ShortTaskHandlingWorker {}

/// What a streaming worker sends on: a JSON value, as text, or the news
/// that it was told to stop.
#[derive(Debug, Clone)]
pub enum SyncWorkerData {
    Data(String),
    StopCommandReceived,
}

/// Commands to a streaming worker.
#[derive(Debug, Clone, Copy, PartialEq, Eq, Structural)]
pub enum SyncWorkerMessage {
    StopReceiveData,
    DataRecieverStopped,
}

/// Errors a streaming worker reports.
#[derive(Debug, Clone)]
pub enum SyncWorkerErrorMessage {
    NoDataReceived,
    WebsocketConnectionFailed(String),
    ConnectionDroppedTimeout,
    OtherError(String),
}

/// A worker of web requests; its web client is held by whoever runs it.
#[derive(Debug)]
pub struct WebAPISyncWorker {
    pub state: WorkerState,
}

impl ShortTaskHandlingWorker for WebAPISyncWorker {}

impl WebAPISyncWorker {
    /// An asleep worker.
    pub fn new() -> (r: WebAPISyncWorker)
        ensures
            r.state == WorkerState::Sleeping,
    {
        WebAPISyncWorker { state: WorkerState::Sleeping }
    }

    /// The first step of handling a task: the worker works, the task
    /// starts now, and its request is built from its kept headers, method,
    /// address and parameters; a websocket task cannot be requested, and
    /// the worker stays working.
    pub fn begin_handle(&mut self, sync_task: &mut SyncTask, now: i64) -> (r: Result<HttpRequestPlan, RequestMethodNotSupported>)
        ensures
            final(self).state == WorkerState::Working,
            *final(sync_task) == (SyncTask { status: TaskStatus::Running, start_time: Some(now), ..*old(sync_task) }),
            old(sync_task).spec.request_method == RequestMethod::Websocket <==> r is Err,
            r matches Ok(plan) ==> plans_task_request(old(sync_task).spec, plan),
    {
        self.state = WorkerState::Working;
        sync_task.start(now);
        let headers = build_headers(&sync_task.spec.request_header);
        let params = crate::task::clone_opt_string(&sync_task.spec.payload);
        build_request(sync_task.spec.request_endpoint.as_str(), sync_task.spec.request_method, Some(headers), params)
    }

    /// The last step of handling a task: a JSON answer is the task's result
    /// and the task is finished; a request that could not be sent fails the
    /// task with its error; either way the worker sleeps. An answer that is
    /// not JSON ends the handling with the worker still working and the
    /// task as it was.
    pub fn finish_handle(&mut self, sync_task: &mut SyncTask, outcome: RequestOutcome, now: i64) -> (r: Result<
        (),
        SyncWorkerError,
    >)
        ensures
            match outcome {
                RequestOutcome::Parsed(json) => {
                    &&& r is Ok
                    &&& final(self).state == WorkerState::Sleeping
                    &&& *final(sync_task) == (SyncTask {
                        result: Some(json),
                        status: TaskStatus::Finished,
                        end_time: Some(now),
                        ..*old(sync_task)
                    })
                },
                RequestOutcome::ParseFailed(text) => {
                    &&& r == Err::<(), SyncWorkerError>(SyncWorkerError::JsonParseFailed(text))
                    &&& final(self).state == old(self).state
                    &&& *final(sync_task) == *old(sync_task)
                },
                RequestOutcome::SendFailed(text) => {
                    &&& r == Err::<(), SyncWorkerError>(SyncWorkerError::WebRequestFailed(text))
                    &&& final(self).state == WorkerState::Sleeping
                    &&& *final(sync_task) == (SyncTask {
                        result_message: Some(text),
                        status: TaskStatus::Failed,
                        end_time: Some(now),
                        ..*old(sync_task)
                    })
                },
            },
    {
        match outcome {
            RequestOutcome::Parsed(json) => {
                self.state = WorkerState::Sleeping;
                sync_task.set_result(Some(json));
                sync_task.finished(now);
                Ok(())
            },
            RequestOutcome::ParseFailed(text) => Err(SyncWorkerError::JsonParseFailed(text)),
            RequestOutcome::SendFailed(text) => {
                self.state = WorkerState::Sleeping;
                sync_task.set_result_message(Some(text.clone()));
                sync_task.failed(now);
                Err(SyncWorkerError::WebRequestFailed(text))
            },
        }
    }
}

/// What came of reading the socket: a text message, another kind of
/// message, or a failed read.
#[derive(Debug)]
pub enum SocketRead {
    Text(String),
    Other,
    Failed(String),
}

/// What a read sends on: data, or an error report.
#[derive(Debug)]
pub enum ReadOutput {
    Data(SyncWorkerData),
    Error(SyncWorkerErrorMessage),
}

/// What the streaming loop does after a command: go on, or end because
/// the command channel closed.
#[derive(Debug, Clone, Copy, PartialEq, Eq, Structural)]
pub enum CommandStep {
    KeepRunning,
    LastRound,
    ChannelClosed,
}

/// Whether a round of the streaming loop reads the socket once after its
/// command: it does, unless the command channel closed.
pub fn round_reads(step: CommandStep) -> (r: bool)
    ensures
        r == !(step is ChannelClosed),
{
    match step {
        CommandStep::ChannelClosed => false,
        _ => true,
    }
}

/// What a read sends on: a text that parses as JSON is data; a text that
/// does not is reported with the parse error; a failed read is reported as
/// no data; other messages send nothing.
pub open spec fn read_output_of(read: SocketRead, r: Option<ReadOutput>) -> bool {
    match read {
        SocketRead::Text(text) => match json_parse_error(text@) {
            None => r matches Some(ReadOutput::Data(SyncWorkerData::Data(d))) && d@ == text@,
            Some(e) => r matches Some(ReadOutput::Error(SyncWorkerErrorMessage::OtherError(m))) && m@ == e,
        },
        SocketRead::Other => r is None,
        SocketRead::Failed(_) => r matches Some(ReadOutput::Error(SyncWorkerErrorMessage::NoDataReceived)),
    }
}

/// A streaming worker: it sends data and errors on, and takes commands.
pub struct WebsocketSyncWorker<MD, MW, ME> {
    pub state: WorkerState,
    pub data_sender: MD,
    pub worker_command_receiver: MW,
    pub error_sender: ME,
}

impl<MD, MW, ME> LongRunningWorker for WebsocketSyncWorker<MD, MW, ME> {}

impl<MD, MW, ME> WebsocketSyncWorker<MD, MW, ME>
    where
        MD: MessageBusSender<SyncWorkerData>,
        MW: MessageBusReceiver<SyncWorkerMessage>,
        ME: MessageBusSender<SyncWorkerErrorMessage>,
 {
    /// An asleep worker with its channels.
    pub fn new(data_sender: MD, worker_command_receiver: MW, error_sender: ME) -> (r: Self)
        ensures
            r.state == WorkerState::Sleeping,
            r.data_sender == data_sender,
            r.worker_command_receiver == worker_command_receiver,
            r.error_sender == error_sender,
    {
        WebsocketSyncWorker { state: WorkerState::Sleeping, data_sender, worker_command_receiver, error_sender }
    }

    /// Closes every channel; the worker is stopped.
    pub fn close_all_channels(&mut self)
        ensures
            final(self).state == WorkerState::Stopped,
            final(self).data_sender.end_closed(),
            final(self).worker_command_receiver.end_closed(),
            final(self).error_sender.end_closed(),
    {
        self.data_sender.close();
        self.worker_command_receiver.close();
        self.error_sender.close();
        self.state = WorkerState::Stopped;
    }

    /// The first step of handling a task: the worker works and the task
    /// starts now; a task that is not a websocket task is refused and the
    /// worker sleeps. No channel is used: each stays as it was.
    pub fn begin_handle(&mut self, sync_task: &mut SyncTask, now: i64) -> (r: Result<(), RequestMethodNotSupported>)
        ensures
            final(self).data_sender == old(self).data_sender,
            final(self).worker_command_receiver == old(self).worker_command_receiver,
            final(self).error_sender == old(self).error_sender,
            *final(sync_task) == (SyncTask { status: TaskStatus::Running, start_time: Some(now), ..*old(sync_task) }),
            old(sync_task).spec.request_method == RequestMethod::Websocket ==> r is Ok && final(self).state
                == WorkerState::Working,
            old(sync_task).spec.request_method != RequestMethod::Websocket ==> r is Err && final(self).state
                == WorkerState::Sleeping,
    {
        self.state = WorkerState::Working;
        sync_task.start(now);
        if sync_task.spec.request_method != RequestMethod::Websocket {
            self.state = WorkerState::Sleeping;
            return Err(RequestMethodNotSupported);
        }
        Ok(())
    }

    /// The endpoint could not be reached: the task fails now, the error is
    /// to be reported, and every channel closes.
    pub fn connection_failed(&mut self, sync_task: &mut SyncTask, reason: String, now: i64) -> (r: SyncWorkerErrorMessage)
        ensures
            *final(sync_task) == (SyncTask { status: TaskStatus::Failed, end_time: Some(now), ..*old(sync_task) }),
            r matches SyncWorkerErrorMessage::WebsocketConnectionFailed(m) && m@ == reason@,
            final(self).state == WorkerState::Stopped,
            final(self).data_sender.end_closed(),
            final(self).worker_command_receiver.end_closed(),
            final(self).error_sender.end_closed(),
    {
        sync_task.failed(now);
        self.close_all_channels();
        SyncWorkerErrorMessage::WebsocketConnectionFailed(reason)
    }

    /// A command in the streaming loop: a stop finishes the task now and
    /// makes this round the last; another command changes nothing; a closed
    /// command channel ends the loop at once.
    pub fn on_command(&self, sync_task: &mut SyncTask, command: Option<SyncWorkerMessage>, now: i64) -> (r: CommandStep)
        ensures
            command == Some(SyncWorkerMessage::StopReceiveData) ==> r == CommandStep::LastRound && *final(sync_task)
                == (SyncTask { status: TaskStatus::Finished, end_time: Some(now), ..*old(sync_task) }),
            command == Some(SyncWorkerMessage::DataRecieverStopped) ==> r == CommandStep::KeepRunning
                && *final(sync_task) == *old(sync_task),
            command is None ==> r == CommandStep::ChannelClosed && *final(sync_task) == *old(sync_task),
    {
        match command {
            Some(SyncWorkerMessage::StopReceiveData) => {
                sync_task.finished(now);
                CommandStep::LastRound
            },
            Some(SyncWorkerMessage::DataRecieverStopped) => CommandStep::KeepRunning,
            None => CommandStep::ChannelClosed,
        }
    }

    /// The end of a round of the streaming loop: after a command that keeps
    /// it running the worker goes on unchanged; after a stop, or once the
    /// command channel closed, the stream ends: every channel closes and the
    /// worker stops. Whether the loop goes on is returned.
    pub fn finish_round(&mut self, step: CommandStep) -> (r: bool)
        ensures
            step == CommandStep::KeepRunning ==> r && final(self).state == old(self).state
                && final(self).data_sender == old(self).data_sender
                && final(self).worker_command_receiver == old(self).worker_command_receiver
                && final(self).error_sender == old(self).error_sender,
            step != CommandStep::KeepRunning ==> {
                &&& !r
                &&& final(self).state == WorkerState::Stopped
                &&& final(self).data_sender.end_closed()
                &&& final(self).worker_command_receiver.end_closed()
                &&& final(self).error_sender.end_closed()
            },
    {
        match step {
            CommandStep::KeepRunning => true,
            _ => {
                self.close_all_channels();
                false
            },
        }
    }

    /// What a read from the socket sends on.
    pub fn on_read(&self, read: SocketRead) -> (r: Option<ReadOutput>)
        ensures
            read_output_of(read, r),
    {
        match read {
            SocketRead::Text(text) => match crate::workers::websocket_worker::json_error(text.as_str()) {
                None => Some(ReadOutput::Data(SyncWorkerData::Data(text))),
                Some(e) => Some(ReadOutput::Error(SyncWorkerErrorMessage::OtherError(e))),
            },
            SocketRead::Other => None,
            SocketRead::Failed(_) => Some(ReadOutput::Error(SyncWorkerErrorMessage::NoDataReceived)),
        }
    }
}

} // verus!
