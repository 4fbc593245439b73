//! A worker that syncs a plan task by task over web requests: it asks the
//! task manager for a task, runs the task's request, and sends the task on
//! as completed, or back for another try when it failed.
//!
//! The requests, the channels and the waits are run outside; this module
//! decides what the worker asks for, what each answer does to the task and
//! to the worker, and what happens next.

use vstd::prelude::*;
use vstd::string::StringExecFns;
use crate::ids::{Id, new_id, format_id, id_text};
use crate::mq::message_bus::{MessageBusError, MessageBusFailureCause, MessageBusSender};
use crate::task::{GetTaskRequest, SyncTask, TaskStatus};
use crate::task_queue::same_task;
use super::errors::{SyncWorkerError, method_not_supported_text};
use super::request::{HttpRequestPlan, build_headers, build_request, plans_task_request};
use super::worker_traits::{ShortRunningWorker, ShortTaskHandlingWorker, SyncWorker, WorkerState};

verus! {

/// A worker is busy when it works on an assigned plan.
pub open spec fn busy(state: WorkerState, plan: Option<Id>) -> bool {
    state == WorkerState::Working && plan is Some
}

/// The error text of a task request that could not be sent.
pub open spec fn request_failed_text(worker_id: Id) -> Seq<char> {
    "Worker "@ + id_text(worker_id) + " failed to request a task!"@
}

/// The error text of a task request whose channel closed.
pub open spec fn request_channel_closed_text(worker_id: Id) -> Seq<char> {
    "Worker "@ + id_text(worker_id) + "'s request sender channel is closed unexpectedly!"@
}

/// The worker error for a task request that could not be sent: a closed
/// channel says so, any other failure says the request failed.
pub open spec fn request_send_failure(worker_id: Id, closed: bool, e: SyncWorkerError) -> bool {
    e matches SyncWorkerError::SendTaskRequestFailed(text) && text@ == (if closed {
        request_channel_closed_text(worker_id)
    } else {
        request_failed_text(worker_id)
    })
}

/// The error text of a task whose request could not be built, for the
/// reason given.
pub open spec fn build_failure_text(reason: Seq<char>) -> Seq<char> {
    "Failed to build request! Reason: BuildRequestFailed(\""@ + reason + "\")"@
}

/// What came of a task's request: it could not be sent, its answer was not
/// JSON, or its answer, as JSON text.
#[derive(Debug)]
pub enum RequestOutcome {
    SendFailed(String),
    ParseFailed(String),
    Parsed(String),
}

/// What the worker does after running a task: send it on as completed,
/// send it back for another try, or stop syncing with an error.
#[derive(Debug)]
pub enum SyncDecision {
    SendCompleted,
    SendBackFailed,
    Stop(SyncWorkerError),
}

/// Errors after which a task goes back for another try and the worker goes
/// on.
pub open spec fn retried_error(e: SyncWorkerError) -> bool {
    ||| e is ConnectionDroppedTimeout
    ||| e is JsonParseFailed
    ||| e is NoDataReceived
    ||| e is WebRequestFailed
}

/// How many times a finished or failed task is offered to its channel:
/// five unless given.
pub open spec fn retry_count(n_retry: Option<usize>) -> usize {
    match n_retry {
        Some(n) => n,
        None => 5,
    }
}

/// How many times a finished or failed task is offered to its channel:
/// five unless given.
pub fn retry_attempts(n_retry: Option<usize>) -> (r: usize)
    ensures
        r == retry_count(n_retry),
{
    match n_retry {
        Some(n) => n,
        None => 5,
    }
}

/// What one attempt to send a task on gave: it went, the channel refused it
/// and handed it back (full or closed), or the end refused it without
/// handing it back.
#[derive(Debug, Clone, Copy, PartialEq, Eq, Structural)]
pub enum SendAttempt {
    Sent,
    Refused(MessageBusFailureCause),
    Lost,
}

/// What a send's answer makes of an attempt.
pub open spec fn attempt_of(r: Result<(), MessageBusError<SyncTask>>) -> SendAttempt {
    match r {
        Ok(_) => SendAttempt::Sent,
        Err(MessageBusError::SendFailed(_, cause)) => SendAttempt::Refused(cause),
        Err(_) => SendAttempt::Lost,
    }
}

/// The task a send's answer hands back, if any.
pub open spec fn handed_back(r: Result<(), MessageBusError<SyncTask>>) -> Option<SyncTask> {
    match r {
        Err(MessageBusError::SendFailed(m, _)) => Some(m),
        _ => None,
    }
}

/// One attempt of an offer: what the send's answer makes of it, and the
/// task it hands back, if any.
pub fn offer_step(r: Result<(), MessageBusError<SyncTask>>) -> (out: (SendAttempt, Option<SyncTask>))
    ensures
        out.0 == attempt_of(r),
        out.1 == handed_back(r),
{
    match r {
        Ok(()) => (SendAttempt::Sent, None),
        Err(MessageBusError::SendFailed(m, cause)) => (SendAttempt::Refused(cause), Some(m)),
        Err(_) => (SendAttempt::Lost, None),
    }
}

/// The attempts of an offer of up to `attempts` tries: every attempt but
/// the last failed, and the offer stops early only once one went.
pub open spec fn offer_log_ok(attempts: usize, log: Seq<SendAttempt>) -> bool {
    &&& log.len() <= attempts
    &&& forall|i: int| 0 <= i < log.len() - 1 ==> !((#[trigger] log[i]) is Sent)
    &&& log.len() < attempts ==> log.len() > 0 && log.last() is Sent
}

/// One attempt of the offer went: the last.
pub open spec fn offer_sent(log: Seq<SendAttempt>) -> bool {
    log.len() > 0 && log.last() is Sent
}

/// An offer of `task` to `sender`: the `i`-th attempt sent `sent[i]`, a
/// copy of the task, got `results[i]` from the sender's `try_send`, and
/// was logged as what that answer makes of it.
pub open spec fn offer_made<S: MessageBusSender<SyncTask>>(
    sender: S,
    task: SyncTask,
    attempts: usize,
    sent: Seq<SyncTask>,
    results: Seq<Result<(), MessageBusError<SyncTask>>>,
    log: Seq<SendAttempt>,
) -> bool {
    &&& sent.len() == log.len()
    &&& results.len() == log.len()
    &&& offer_log_ok(attempts, log)
    &&& forall|i: int|
        0 <= i < log.len() ==> {
            &&& same_task(#[trigger] sent[i], task)
            &&& call_ensures(<S as MessageBusSender<SyncTask>>::try_send, (&sender, sent[i]), results[i])
            &&& log[i] == attempt_of(results[i])
        }
}

/// Offers a task to a channel up to `attempts` times, a copy of the same
/// task each time, until one attempt goes, whatever the refusals. The
/// attempts are returned, with what each sent and got back.
pub fn offer_task<S: MessageBusSender<SyncTask>>(sender: &S, task: &SyncTask, attempts: usize) -> (r: (
    Vec<SendAttempt>,
    Ghost<Seq<SyncTask>>,
    Ghost<Seq<Result<(), MessageBusError<SyncTask>>>>,
))
    ensures
        offer_made(*sender, *task, attempts, r.1@, r.2@, r.0@),
{
    let mut log: Vec<SendAttempt> = Vec::new();
    let ghost mut sent: Seq<SyncTask> = Seq::empty();
    let ghost mut results: Seq<Result<(), MessageBusError<SyncTask>>> = Seq::empty();
    let mut i: usize = 0;
    while i < attempts
        invariant
            i <= attempts,
            log@.len() == i,
            sent.len() == i,
            results.len() == i,
            forall|j: int| 0 <= j < i ==> !((#[trigger] log@[j]) is Sent),
            forall|j: int|
                0 <= j < i ==> {
                    &&& same_task(#[trigger] sent[j], *task)
                    &&& call_ensures(<S as MessageBusSender<SyncTask>>::try_send, (sender, sent[j]), results[j])
                    &&& log@[j] == attempt_of(results[j])
                },
        decreases attempts - i,
    {
        let copy = task.clone();
        let ghost c = copy;
        let answer = sender.try_send(copy);
        let ghost got = answer;
        let (attempt, _) = offer_step(answer);
        proof {
            sent = sent.push(c);
            results = results.push(got);
        }
        log.push(attempt);
        i = i + 1;
        if attempt == SendAttempt::Sent {
            return (log, Ghost(sent), Ghost(results));
        }
    }
    (log, Ghost(sent), Ghost(results))
}

/// A worker of web requests; its channels are of the given kinds, and its
/// web client is held by whoever runs it.
pub struct WebAPISyncWorker<TRS, TTR, CTS, FTS> {
    pub id: Id,
    pub state: WorkerState,
    pub task_request_sender: TRS,
    pub todo_task_receiver: TTR,
    pub completed_task_sender: CTS,
    pub failed_task_sender: FTS,
    pub assigned_sync_plan_id: Option<Id>,
}

impl<TRS, TTR, CTS, FTS> WebAPISyncWorker<TRS, TTR, CTS, FTS> {
    /// A waiting worker with a fresh random id and no plan.
    pub fn new(
        task_request_sender: TRS,
        todo_task_receiver: TTR,
        completed_task_sender: CTS,
        failed_task_sender: FTS,
    ) -> (r: Self)
        ensures
            r.state == WorkerState::Idle,
            r.assigned_sync_plan_id is None,
            r.task_request_sender == task_request_sender,
            r.todo_task_receiver == todo_task_receiver,
            r.completed_task_sender == completed_task_sender,
            r.failed_task_sender == failed_task_sender,
    {
        WebAPISyncWorker {
            id: new_id(),
            state: WorkerState::default(),
            task_request_sender,
            todo_task_receiver,
            completed_task_sender,
            failed_task_sender,
            assigned_sync_plan_id: None,
        }
    }

    /// The worker works on a plan.
    pub fn start_working(&mut self, sync_plan_id: Id)
        ensures
            *final(self) == (WebAPISyncWorker {
                state: WorkerState::Working,
                assigned_sync_plan_id: Some(sync_plan_id),
                ..*old(self)
            }),
    {
        self.state = WorkerState::Working;
        self.assigned_sync_plan_id = Some(sync_plan_id);
    }

    /// The worker waits; its plan stays.
    pub fn wait(&mut self)
        ensures
            *final(self) == (WebAPISyncWorker { state: WorkerState::Idle, ..*old(self) }),
    {
        self.state = WorkerState::Idle;
    }

    /// The worker stops and lets its plan go.
    pub fn halt(&mut self)
        ensures
            *final(self) == (WebAPISyncWorker {
                state: WorkerState::Stopped,
                assigned_sync_plan_id: None,
                ..*old(self)
            }),
    {
        self.state = WorkerState::Stopped;
        self.assigned_sync_plan_id = None;
    }

    /// The worker works on an assigned plan.
    pub fn is_busy(&self) -> (r: bool)
        ensures
            r == busy(self.state, self.assigned_sync_plan_id),
    {
        self.state == WorkerState::Working && self.assigned_sync_plan_id.is_some()
    }

    /// The request for the next task of the worker's plan; a worker that
    /// is not busy asks for none.
    pub fn task_request(&self) -> (r: Result<GetTaskRequest, SyncWorkerError>)
        ensures
            !busy(self.state, self.assigned_sync_plan_id) ==> r == Err::<GetTaskRequest, SyncWorkerError>(
                SyncWorkerError::NoTaskAssigned,
            ),
            busy(self.state, self.assigned_sync_plan_id) ==> r == Ok::<GetTaskRequest, SyncWorkerError>(
                GetTaskRequest { sync_plan_id: self.assigned_sync_plan_id->0 },
            ),
    {
        if !self.is_busy() {
            return Err(SyncWorkerError::NoTaskAssigned);
        }
        match self.assigned_sync_plan_id {
            Some(plan_id) => Ok(GetTaskRequest::new(plan_id)),
            None => Err(SyncWorkerError::NoTaskAssigned),
        }
    }

    /// The worker error for a task request that could not be sent.
    pub fn request_send_error<T>(&self, e: MessageBusError<T>) -> (r: SyncWorkerError)
        ensures
            request_send_failure(self.id, e is SenderClosed, r),
    {
        let mut text = String::from_str("Worker ");
        let id = format_id(self.id);
        text.append(id.as_str());
        match e {
            MessageBusError::SenderClosed => text.append("'s request sender channel is closed unexpectedly!"),
            _ => text.append(" failed to request a task!"),
        }
        SyncWorkerError::SendTaskRequestFailed(text)
    }

    /// The task that came in answer to a request, or the error that none
    /// came.
    pub fn received_task(&self, received: Option<SyncTask>) -> (r: Result<SyncTask, SyncWorkerError>)
        ensures
            r == (match received {
                Some(task) => Ok::<SyncTask, SyncWorkerError>(task),
                None => Err(SyncWorkerError::NoTaskAssigned),
            }),
    {
        match received {
            Some(task) => Ok(task),
            None => Err(SyncWorkerError::NoTaskAssigned),
        }
    }

    /// The request of a task: its kept headers, its method, address and
    /// parameters; a websocket task cannot be requested this way.
    pub fn build_request_header(&self, sync_task: &SyncTask) -> (r: Result<HttpRequestPlan, SyncWorkerError>)
        ensures
            sync_task.spec.request_method == crate::task::RequestMethod::Websocket <==> r is Err,
            r matches Err(e) ==> (e matches SyncWorkerError::BuildRequestFailed(text) && text@
                == method_not_supported_text()),
            r matches Ok(plan) ==> plans_task_request(sync_task.spec, plan),
    {
        let headers = build_headers(&sync_task.spec.request_header);
        let params = crate::task::clone_opt_string(&sync_task.spec.payload);
        match build_request(sync_task.spec.request_endpoint.as_str(), sync_task.spec.request_method, Some(headers), params) {
            Ok(plan) => Ok(plan),
            Err(e) => Err(SyncWorkerError::BuildRequestFailed(e.message())),
        }
    }

    /// The first step of running a task: the task starts now, and its
    /// request is built.
    pub fn begin_execution(&self, sync_task: &mut SyncTask, now: i64) -> (r: Result<HttpRequestPlan, SyncWorkerError>)
        ensures
            *final(sync_task) == (SyncTask { status: TaskStatus::Running, start_time: Some(now), ..*old(sync_task) }),
            old(sync_task).spec.request_method == crate::task::RequestMethod::Websocket <==> r is Err,
            r matches Err(e) ==> (e matches SyncWorkerError::BuildRequestFailed(text) && text@
                == method_not_supported_text()),
            r matches Ok(plan) ==> plans_task_request(old(sync_task).spec, plan),
    {
        sync_task.start(now);
        self.build_request_header(sync_task)
    }

    /// A task whose request could not be built fails now, saying why.
    pub fn record_build_failure(&self, sync_task: &mut SyncTask, reason: &str, now: i64)
        ensures
            final(sync_task).result_message matches Some(m) && m@ == build_failure_text(reason@),
            *final(sync_task) == (SyncTask {
                status: TaskStatus::Failed,
                end_time: Some(now),
                result_message: final(sync_task).result_message,
                ..*old(sync_task)
            }),
    {
        let mut text = String::from_str("Failed to build request! Reason: BuildRequestFailed(\"");
        text.append(reason);
        text.append("\")");
        sync_task.set_result_message(Some(text));
        sync_task.failed(now);
    }

    /// The last step of running a task: an answer parsed as JSON is the
    /// task's result and the task is finished; otherwise the task failed
    /// with the error's text, and so does the run.
    pub fn finish_execution(&self, sync_task: &mut SyncTask, outcome: RequestOutcome, now: i64) -> (r: Result<
        (),
        SyncWorkerError,
    >)
        ensures
            match outcome {
                RequestOutcome::Parsed(json) => {
                    &&& r is Ok
                    &&& *final(sync_task) == (SyncTask {
                        result: Some(json),
                        status: TaskStatus::Finished,
                        end_time: Some(now),
                        ..*old(sync_task)
                    })
                },
                RequestOutcome::ParseFailed(text) => {
                    &&& r == Err::<(), SyncWorkerError>(SyncWorkerError::JsonParseFailed(text))
                    &&& *final(sync_task) == (SyncTask {
                        result_message: Some(text),
                        status: TaskStatus::Failed,
                        end_time: Some(now),
                        ..*old(sync_task)
                    })
                },
                RequestOutcome::SendFailed(text) => {
                    &&& r == Err::<(), SyncWorkerError>(SyncWorkerError::WebRequestFailed(text))
                    &&& *final(sync_task) == (SyncTask {
                        result_message: Some(text),
                        status: TaskStatus::Failed,
                        end_time: Some(now),
                        ..*old(sync_task)
                    })
                },
            },
    {
        match outcome {
            RequestOutcome::Parsed(json) => {
                sync_task.set_result(Some(json));
                sync_task.finished(now);
                Ok(())
            },
            RequestOutcome::ParseFailed(text) => {
                sync_task.set_result_message(Some(text.clone()));
                sync_task.failed(now);
                Err(SyncWorkerError::JsonParseFailed(text))
            },
            RequestOutcome::SendFailed(text) => {
                sync_task.set_result_message(Some(text.clone()));
                sync_task.failed(now);
                Err(SyncWorkerError::WebRequestFailed(text))
            },
        }
    }

    /// What follows a task's run: a finished task is sent on; a task that
    /// failed on the network or on its answer goes back for another try; a
    /// stopped worker stops; any other error stops the sync and the worker
    /// waits.
    pub fn after_execution(&mut self, result: Result<(), SyncWorkerError>) -> (r: SyncDecision)
        ensures
            (result matches Err(SyncWorkerError::WebRequestFailed(_))) ==> r == SyncDecision::SendBackFailed
                && *final(self) == *old(self),
            (result matches Err(SyncWorkerError::JsonParseFailed(_))) ==> r == SyncDecision::SendBackFailed
                && *final(self) == *old(self),
            result == Err::<(), SyncWorkerError>(SyncWorkerError::ConnectionDroppedTimeout) ==> r
                == SyncDecision::SendBackFailed && *final(self) == *old(self),
            result == Err::<(), SyncWorkerError>(SyncWorkerError::NoDataReceived) ==> r == SyncDecision::SendBackFailed
                && *final(self) == *old(self),
            match result {
                Ok(()) => r == SyncDecision::SendCompleted && *final(self) == *old(self),
                Err(e) => if retried_error(e) {
                    r == SyncDecision::SendBackFailed && *final(self) == *old(self)
                } else if e is WorkerStopped {
                    r == SyncDecision::Stop(e) && *final(self) == *old(self)
                } else {
                    r == SyncDecision::Stop(e) && *final(self) == (WebAPISyncWorker {
                        state: WorkerState::Idle,
                        ..*old(self)
                    })
                },
            },
    {
        match result {
            Ok(()) => SyncDecision::SendCompleted,
            Err(e) => match e {
                SyncWorkerError::ConnectionDroppedTimeout => SyncDecision::SendBackFailed,
                SyncWorkerError::JsonParseFailed(_) => SyncDecision::SendBackFailed,
                SyncWorkerError::NoDataReceived => SyncDecision::SendBackFailed,
                SyncWorkerError::WebRequestFailed(_) => SyncDecision::SendBackFailed,
                SyncWorkerError::WorkerStopped => SyncDecision::Stop(e),
                _ => {
                    self.wait();
                    SyncDecision::Stop(e)
                },
            },
        }
    }
}

impl<TRS, TTR, CTS, FTS> WebAPISyncWorker<TRS, TTR, CTS, FTS>
    where
        CTS: MessageBusSender<SyncTask>,
        FTS: MessageBusSender<SyncTask>,
 {
    /// Sends a finished task on, offering it up to `n_retry` times (five
    /// unless given) until one attempt goes; it fails when none went. The
    /// attempts are returned.
    pub fn send_completed_task(&self, completed_task: SyncTask, n_retry: Option<usize>) -> (r: (
        Result<(), SyncWorkerError>,
        Vec<SendAttempt>,
    ))
        ensures
            exists|sent: Seq<SyncTask>, results: Seq<Result<(), MessageBusError<SyncTask>>>|
                #[trigger] offer_made(self.completed_task_sender, completed_task, retry_count(n_retry), sent, results, r.1@),
            r.0 is Ok <==> offer_sent(r.1@),
            r.0 is Err ==> r.0 == Err::<(), SyncWorkerError>(SyncWorkerError::CompleteTaskSendFailed),
    {
        let (log, Ghost(sent), Ghost(results)) = offer_task(&self.completed_task_sender, &completed_task, retry_attempts(n_retry));
        let went = log.len() > 0 && log[log.len() - 1] == SendAttempt::Sent;
        let res = if went {
            (Ok(()), log)
        } else {
            (Err(SyncWorkerError::CompleteTaskSendFailed), log)
        };
        proof {
            assert(offer_made(self.completed_task_sender, completed_task, retry_count(n_retry), sent, results, res.1@));
        }
        res
    }

    /// Sends a failed task back for another try, offering it up to
    /// `n_retry` times (five unless given) until one attempt goes; it fails
    /// when none went. The attempts are returned.
    pub fn send_failed_task(&self, failed_task: SyncTask, n_retry: Option<usize>) -> (r: (
        Result<(), SyncWorkerError>,
        Vec<SendAttempt>,
    ))
        ensures
            exists|sent: Seq<SyncTask>, results: Seq<Result<(), MessageBusError<SyncTask>>>|
                #[trigger] offer_made(self.failed_task_sender, failed_task, retry_count(n_retry), sent, results, r.1@),
            r.0 is Ok <==> offer_sent(r.1@),
            r.0 is Err ==> r.0 == Err::<(), SyncWorkerError>(SyncWorkerError::ResendTaskFailed),
    {
        let (log, Ghost(sent), Ghost(results)) = offer_task(&self.failed_task_sender, &failed_task, retry_attempts(n_retry));
        let went = log.len() > 0 && log[log.len() - 1] == SendAttempt::Sent;
        let res = if went {
            (Ok(()), log)
        } else {
            (Err(SyncWorkerError::ResendTaskFailed), log)
        };
        proof {
            assert(offer_made(self.failed_task_sender, failed_task, retry_count(n_retry), sent, results, res.1@));
        }
        res
    }
}

impl<TRS, TTR, CTS, FTS> ShortTaskHandlingWorker for WebAPISyncWorker<TRS, TTR, CTS, FTS> {}

impl<TRS, TTR, CTS, FTS> ShortRunningWorker for WebAPISyncWorker<TRS, TTR, CTS, FTS> {}

impl<TRS, TTR, CTS, FTS> SyncWorker for WebAPISyncWorker<TRS, TTR, CTS, FTS> {
    fn pause(&mut self) -> (r: Result<(), SyncWorkerError>)
        ensures
            r matches Ok(_),
            *final(self) == (WebAPISyncWorker { state: WorkerState::Idle, ..*old(self) }),
    {
        self.wait();
        Ok(())
    }

    fn stop(&mut self) -> (r: Result<(), SyncWorkerError>)
        ensures
            r matches Ok(_),
            *final(self) == (WebAPISyncWorker {
                state: WorkerState::Stopped,
                assigned_sync_plan_id: None,
                ..*old(self)
            }),
    {
        self.halt();
        Ok(())
    }

    /// A busy worker stops first; either way the plan is the new one.
    fn reassign_sync_plan(&mut self, sync_plan_id: &Id) -> (r: Result<(), SyncWorkerError>)
        ensures
            r matches Ok(_),
            final(self).assigned_sync_plan_id == Some(*sync_plan_id),
            final(self).state == (if busy(old(self).state, old(self).assigned_sync_plan_id) {
                WorkerState::Stopped
            } else {
                old(self).state
            }),
            final(self).id == old(self).id,
    {
        if self.is_busy() {
            self.halt();
        }
        self.assigned_sync_plan_id = Some(*sync_plan_id);
        Ok(())
    }

    fn current_state(&self) -> (r: WorkerState)
        ensures
            r == self.state,
    {
        self.state
    }
}

/// Tasks that failed on the network or on their answer go back for another
/// try and the sync goes on; a task whose request could not be built, a
/// stopped worker, and any other error stop the sync.
pub proof fn law_failed_tasks_go_back(text: String)
    ensures
        retried_error(SyncWorkerError::WebRequestFailed(text)),
        retried_error(SyncWorkerError::JsonParseFailed(text)),
        retried_error(SyncWorkerError::ConnectionDroppedTimeout),
        retried_error(SyncWorkerError::NoDataReceived),
        !retried_error(SyncWorkerError::BuildRequestFailed(text)),
        !retried_error(SyncWorkerError::WorkerStopped),
        !retried_error(SyncWorkerError::NoTaskAssigned),
        !retried_error(SyncWorkerError::NoTaskReceived),
        !retried_error(SyncWorkerError::WebsocketConnectionFailed(text)),
{
}

} // verus!
