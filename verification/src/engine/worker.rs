//! An engine worker: it takes a plan from the supervisor and, while
//! syncing, asks the task manager for the plan's tasks one by one at a
//! steady rate.
//!
//! The worker's channels, its timer and the requests it sends out are run
//! outside; this module decides what each command and each answer does.

use vstd::prelude::*;
use crate::ids::Id;
use super::commands::{Task, TaskManagerCommand, TaskRequestResponse, WorkerCommand, WorkerResponse};

verus! {

/// Where a worker is: created, waiting for a plan, holding a plan, syncing
/// one, or stopped.
#[derive(Debug, Clone, Copy)]
pub enum WorkerState {
    Created,
    Idle,
    Ready { plan_id: Id },
    Working { plan_id: Id },
    Stopped,
}

/// Two states compare equal when both wait for a plan, or both sync the
/// same plan; no other two states compare equal.
pub open spec fn worker_states_equal(a: WorkerState, b: WorkerState) -> bool {
    match (a, b) {
        (WorkerState::Idle, WorkerState::Idle) => true,
        (WorkerState::Working { plan_id: x }, WorkerState::Working { plan_id: y }) => x == y,
        _ => false,
    }
}

impl PartialEq for WorkerState {
    fn eq(&self, other: &Self) -> (r: bool) {
        match (self, other) {
            (WorkerState::Idle, WorkerState::Idle) => true,
            (WorkerState::Working { plan_id: x }, WorkerState::Working { plan_id: y }) => *x == *y,
            _ => false,
        }
    }
}

impl vstd::std_specs::cmp::PartialEqSpecImpl for WorkerState {
    open spec fn obeys_eq_spec() -> bool {
        true
    }

    open spec fn eq_spec(&self, other: &Self) -> bool {
        worker_states_equal(*self, *other)
    }
}

/// Why a worker's sync ended early.
#[derive(Debug, Clone, Copy, PartialEq, Eq, Structural)]
pub enum WorkerError {
    ConnectionTimeout,
    TaskReceiverChannelClosed,
    PlanNotFound(Id),
    SendFailed,
    BuildRequestFailed,
}

/// What a worker does: answer the supervisor, abort its running sync, or
/// start a sync of a plan that asks for a task every `interval_ms`.
#[derive(Debug)]
pub enum WorkerAction {
    Respond(WorkerResponse),
    AbortSync,
    StartSync { plan_id: Id, interval_ms: u64 },
}

/// What happened in one round of a sync: the task request could not be
/// sent, an answer came, or the answer channel failed.
#[derive(Debug)]
pub enum SyncEvent {
    SendFailed,
    Received(TaskRequestResponse),
    ReceiveFailed,
}

/// What a sync does next: run a task and go on, finish, or end with an
/// error.
#[derive(Debug)]
pub enum SyncStep {
    Process(Task),
    Finished,
    Failed(WorkerError),
}

/// The request a syncing worker sends each round.
pub fn task_request(plan_id: Id) -> (r: TaskManagerCommand)
    ensures
        r == TaskManagerCommand::RequestTask(plan_id),
{
    TaskManagerCommand::RequestTask(plan_id)
}

/// The next step of a sync after one round: a new task is run and the sync
/// goes on; no task left finishes it; an unknown plan, a failed send or a
/// failed answer channel end it with the matching error.
pub fn sync_step(event: SyncEvent) -> (r: SyncStep)
    ensures
        r == (match event {
            SyncEvent::SendFailed => SyncStep::Failed(WorkerError::SendFailed),
            SyncEvent::Received(TaskRequestResponse::NewTask(task)) => SyncStep::Process(task),
            SyncEvent::Received(TaskRequestResponse::NoTaskLeft) => SyncStep::Finished,
            SyncEvent::Received(TaskRequestResponse::PlanNotFound(plan_id)) => SyncStep::Failed(
                WorkerError::PlanNotFound(plan_id),
            ),
            SyncEvent::ReceiveFailed => SyncStep::Failed(WorkerError::TaskReceiverChannelClosed),
        }),
{
    match event {
        SyncEvent::SendFailed => SyncStep::Failed(WorkerError::SendFailed),
        SyncEvent::Received(TaskRequestResponse::NewTask(task)) => SyncStep::Process(task),
        SyncEvent::Received(TaskRequestResponse::NoTaskLeft) => SyncStep::Finished,
        SyncEvent::Received(TaskRequestResponse::PlanNotFound(plan_id)) => SyncStep::Failed(
            WorkerError::PlanNotFound(plan_id),
        ),
        SyncEvent::ReceiveFailed => SyncStep::Failed(WorkerError::TaskReceiverChannelClosed),
    }
}

/// A worker's own state; its channels, timer and running sync are held by
/// whoever runs it.
#[derive(Debug)]
pub struct Worker {
    pub id: Id,
    pub assigned_plan_id: Option<Id>,
    pub has_task_receiver: bool,
    pub state: WorkerState,
    pub response_timeout_ms: u64,
    pub request_per_minute: usize,
}

/// A command makes the worker start syncing: a plan assigned to start at
/// once, or a start while it holds a plan and its task channel.
pub open spec fn starts_sync(w: Worker, command: WorkerCommand) -> bool {
    match command {
        WorkerCommand::AssignPlan { start_immediately, .. } => start_immediately,
        WorkerCommand::StartSync => w.assigned_plan_id is Some && w.has_task_receiver,
        _ => false,
    }
}

/// The pause between two task requests, for a rate per minute.
pub open spec fn request_interval_ms(request_per_minute: usize) -> int {
    60000int / (request_per_minute as int)
}

impl Worker {
    /// A worker with the given id, no plan, a response timeout of 5 seconds
    /// and a rate of 50 requests a minute unless given.
    pub fn new(id: Id, response_timeout_ms: Option<u64>, request_per_minute: Option<usize>) -> (r: Worker)
        ensures
            r.id == id,
            r.assigned_plan_id is None,
            !r.has_task_receiver,
            r.state == WorkerState::Created,
            r.response_timeout_ms == (match response_timeout_ms {
                Some(t) => t,
                None => 5000,
            }),
            r.request_per_minute == (match request_per_minute {
                Some(n) => n,
                None => 50,
            }),
    {
        let timeout = match response_timeout_ms {
            Some(t) => t,
            None => 5000,
        };
        let rate = match request_per_minute {
            Some(n) => n,
            None => 50,
        };
        Worker {
            id,
            assigned_plan_id: None,
            has_task_receiver: false,
            state: WorkerState::Created,
            response_timeout_ms: timeout,
            request_per_minute: rate,
        }
    }

    /// The worker starts taking commands.
    pub fn start(&mut self)
        ensures
            *final(self) == (Worker { state: WorkerState::Idle, ..*old(self) }),
    {
        self.state = WorkerState::Idle;
    }

    /// Starts syncing a plan: the sync asks for a task at the worker's rate,
    /// the worker works on the plan, and the supervisor is told.
    fn start_syncing_plan(&mut self, plan_id: Id) -> (r: Vec<WorkerAction>)
        requires
            0 < old(self).request_per_minute <= 60000,
        ensures
            *final(self) == (Worker { state: WorkerState::Working { plan_id }, ..*old(self) }),
            r@ == seq![
                WorkerAction::StartSync {
                    plan_id,
                    interval_ms: request_interval_ms(old(self).request_per_minute) as u64,
                },
                WorkerAction::Respond(WorkerResponse::StartOk { worker_id: old(self).id, plan_id }),
            ],
    {
        let interval_ms = (60000 / self.request_per_minute) as u64;
        self.state = WorkerState::Working { plan_id };
        let mut r: Vec<WorkerAction> = Vec::new();
        r.push(WorkerAction::StartSync { plan_id, interval_ms });
        r.push(WorkerAction::Respond(WorkerResponse::StartOk { worker_id: self.id, plan_id }));
        r
    }

    /// Handles a supervisor command. Shutdown aborts a running sync, stops
    /// the worker and reports it. A plan is taken with its task channel and
    /// either synced at once or held, which is reported. A start syncs the
    /// held plan. A cancel of the plan being synced aborts it, frees the
    /// worker and reports it; any other cancel is ignored.
    pub fn handle_command(&mut self, command: WorkerCommand) -> (r: Vec<WorkerAction>)
        requires
            !(command is PauseSync),
            starts_sync(*old(self), command) ==> 0 < old(self).request_per_minute <= 60000,
        ensures
            final(self).id == old(self).id,
            final(self).response_timeout_ms == old(self).response_timeout_ms,
            final(self).request_per_minute == old(self).request_per_minute,
            match command {
                WorkerCommand::Shutdown => {
                    &&& final(self).state == WorkerState::Stopped
                    &&& final(self).assigned_plan_id == old(self).assigned_plan_id
                    &&& final(self).has_task_receiver == old(self).has_task_receiver
                    &&& r@ == if old(self).state is Working {
                        seq![
                            WorkerAction::AbortSync,
                            WorkerAction::Respond(WorkerResponse::ShutdownComplete(old(self).id)),
                        ]
                    } else {
                        seq![WorkerAction::Respond(WorkerResponse::ShutdownComplete(old(self).id))]
                    }
                },
                WorkerCommand::AssignPlan { plan_id, start_immediately } => {
                    &&& final(self).assigned_plan_id == Some(plan_id)
                    &&& final(self).has_task_receiver
                    &&& start_immediately ==> final(self).state == (WorkerState::Working { plan_id }) && r@
                        == seq![
                        WorkerAction::StartSync {
                            plan_id,
                            interval_ms: request_interval_ms(old(self).request_per_minute) as u64,
                        },
                        WorkerAction::Respond(WorkerResponse::StartOk { worker_id: old(self).id, plan_id }),
                    ]
                    &&& !start_immediately ==> final(self).state == (WorkerState::Ready { plan_id }) && r@
                        == seq![
                        WorkerAction::Respond(
                            WorkerResponse::PlanAssigned { worker_id: old(self).id, plan_id, sync_started: false },
                        ),
                    ]
                },
                WorkerCommand::StartSync => {
                    &&& final(self).assigned_plan_id == old(self).assigned_plan_id
                    &&& final(self).has_task_receiver == old(self).has_task_receiver
                    &&& starts_sync(*old(self), command) ==> ({
                        let plan_id = old(self).assigned_plan_id->0;
                        &&& final(self).state == (WorkerState::Working { plan_id })
                        &&& r@ == seq![
                            WorkerAction::StartSync {
                                plan_id,
                                interval_ms: request_interval_ms(old(self).request_per_minute) as u64,
                            },
                            WorkerAction::Respond(WorkerResponse::StartOk { worker_id: old(self).id, plan_id }),
                        ]
                    })
                    &&& !starts_sync(*old(self), command) ==> final(self).state == old(self).state && r@.len()
                        == 0
                },
                WorkerCommand::CancelPlan(plan_id) => {
                    &&& final(self).has_task_receiver == old(self).has_task_receiver
                    &&& old(self).state == (WorkerState::Working { plan_id }) ==> {
                        &&& final(self).state == WorkerState::Idle
                        &&& final(self).assigned_plan_id is None
                        &&& r@ == seq![
                            WorkerAction::AbortSync,
                            WorkerAction::Respond(WorkerResponse::PlanCancelled { worker_id: old(self).id, plan_id }),
                        ]
                    }
                    &&& old(self).state != (WorkerState::Working { plan_id }) ==> {
                        &&& final(self).state == old(self).state
                        &&& final(self).assigned_plan_id == old(self).assigned_plan_id
                        &&& r@.len() == 0
                    }
                },
                WorkerCommand::PauseSync => true,
            },
    {
        match command {
            WorkerCommand::Shutdown => {
                let mut r: Vec<WorkerAction> = Vec::new();
                if let WorkerState::Working { .. } = self.state {
                    r.push(WorkerAction::AbortSync);
                }
                self.state = WorkerState::Stopped;
                r.push(WorkerAction::Respond(WorkerResponse::ShutdownComplete(self.id)));
                r
            },
            WorkerCommand::AssignPlan { plan_id, start_immediately } => {
                self.assigned_plan_id = Some(plan_id);
                self.has_task_receiver = true;
                if start_immediately {
                    self.start_syncing_plan(plan_id)
                } else {
                    self.state = WorkerState::Ready { plan_id };
                    let mut r: Vec<WorkerAction> = Vec::new();
                    r.push(
                        WorkerAction::Respond(
                            WorkerResponse::PlanAssigned { worker_id: self.id, plan_id, sync_started: false },
                        ),
                    );
                    r
                }
            },
            WorkerCommand::StartSync => {
                match self.assigned_plan_id {
                    Some(plan_id) => {
                        if self.has_task_receiver {
                            self.start_syncing_plan(plan_id)
                        } else {
                            Vec::new()
                        }
                    },
                    None => Vec::new(),
                }
            },
            WorkerCommand::CancelPlan(plan_id) => {
                let working_on_it = match self.state {
                    WorkerState::Working { plan_id: current } => current == plan_id,
                    _ => false,
                };
                if working_on_it {
                    self.state = WorkerState::Idle;
                    self.assigned_plan_id = None;
                    let mut r: Vec<WorkerAction> = Vec::new();
                    r.push(WorkerAction::AbortSync);
                    r.push(WorkerAction::Respond(WorkerResponse::PlanCancelled { worker_id: self.id, plan_id }));
                    r
                } else {
                    Vec::new()
                }
            },
            WorkerCommand::PauseSync => Vec::new(),
        }
    }
}

} // verus!
