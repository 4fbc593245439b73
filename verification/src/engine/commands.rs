//! The messages the engine's components exchange: commands, responses and
//! the tasks handed to workers.

use vstd::prelude::*;
use crate::ids::Id;
use crate::task::TaskSpecification;

verus! {

/// Where a component of the engine is in its life.
#[derive(Debug, Clone, Copy, PartialEq, Eq, Structural)]
pub enum ComponentState {
    Created,
    Running,
    Stopped,
}

/// Where the engine is in its life.
#[derive(Debug, Clone, Copy, PartialEq, Eq, Structural)]
pub enum EngineState {
    Created,
    Running,
    Stopped,
}

/// How progress is reported.
#[derive(Debug, Clone, Copy, PartialEq, Eq, Structural)]
pub enum ProgressManagement {
    ImmediateReport,
    ListenForProgress,
}

/// A plan as the engine sees it: its id and the specification of each task.
#[derive(Debug)]
pub struct Plan {
    pub plan_id: Id,
    pub task_specs: Vec<TaskSpecification>,
}

impl Plan {
    /// The plan's id.
    pub fn plan_id(&self) -> (r: Id)
        ensures
            r == self.plan_id,
    {
        self.plan_id
    }

    /// The plan's task specifications.
    pub fn task_specs(&self) -> (r: &Vec<TaskSpecification>)
        ensures
            r == &self.task_specs,
    {
        &self.task_specs
    }
}

/// Commands to the engine.
#[derive(Debug)]
pub enum EngineCommands {
    Shutdown,
    AddPlan { plan: Plan, start_immediately: bool },
    RemovePlan(Id),
    StartSync,
    CancelSync,
    StartPlan(Id),
    CancelPlan(Id),
    PausePlan(Id),
}

/// The engine's answers.
#[derive(Debug, PartialEq, Eq)]
pub enum EngineResponse {
    ComponentShutdownComplete(String),
    ShutdownComplete,
    PlanAdded { plan_id: Id },
    PlanRemoved { plan_id: Id },
    SyncStarted,
    SyncCancelled,
    PlanStarted { plan_id: Id },
    PlanCancelled { plan_id: Id },
    Error { message: String, component: String },
}

/// Two engine responses are the same: the same variant with the same
/// fields, strings compared by their text.
pub open spec fn same_engine_response(a: EngineResponse, b: EngineResponse) -> bool {
    match (a, b) {
        (EngineResponse::ComponentShutdownComplete(x), EngineResponse::ComponentShutdownComplete(y)) => x@ == y@,
        (EngineResponse::ShutdownComplete, EngineResponse::ShutdownComplete) => true,
        (EngineResponse::PlanAdded { plan_id: x }, EngineResponse::PlanAdded { plan_id: y }) => x == y,
        (EngineResponse::PlanRemoved { plan_id: x }, EngineResponse::PlanRemoved { plan_id: y }) => x == y,
        (EngineResponse::SyncStarted, EngineResponse::SyncStarted) => true,
        (EngineResponse::SyncCancelled, EngineResponse::SyncCancelled) => true,
        (EngineResponse::PlanStarted { plan_id: x }, EngineResponse::PlanStarted { plan_id: y }) => x == y,
        (EngineResponse::PlanCancelled { plan_id: x }, EngineResponse::PlanCancelled { plan_id: y }) => x == y,
        (
            EngineResponse::Error { message: m1, component: c1 },
            EngineResponse::Error { message: m2, component: c2 },
        ) => m1@ == m2@ && c1@ == c2@,
        _ => false,
    }
}

/// Compares two engine responses.
pub fn responses_match(a: &EngineResponse, b: &EngineResponse) -> (r: bool)
    ensures
        r == same_engine_response(*a, *b),
{
    match (a, b) {
        (EngineResponse::ComponentShutdownComplete(x), EngineResponse::ComponentShutdownComplete(y)) => x.eq(y),
        (EngineResponse::ShutdownComplete, EngineResponse::ShutdownComplete) => true,
        (EngineResponse::PlanAdded { plan_id: x }, EngineResponse::PlanAdded { plan_id: y }) => *x == *y,
        (EngineResponse::PlanRemoved { plan_id: x }, EngineResponse::PlanRemoved { plan_id: y }) => *x == *y,
        (EngineResponse::SyncStarted, EngineResponse::SyncStarted) => true,
        (EngineResponse::SyncCancelled, EngineResponse::SyncCancelled) => true,
        (EngineResponse::PlanStarted { plan_id: x }, EngineResponse::PlanStarted { plan_id: y }) => *x == *y,
        (EngineResponse::PlanCancelled { plan_id: x }, EngineResponse::PlanCancelled { plan_id: y }) => *x == *y,
        (
            EngineResponse::Error { message: m1, component: c1 },
            EngineResponse::Error { message: m2, component: c2 },
        ) => m1.eq(m2) && c1.eq(c2),
        _ => false,
    }
}

/// A task as the engine hands it to a worker.
#[derive(Debug)]
pub struct Task {
    pub plan_id: Id,
    pub task_id: Id,
    pub spec: TaskSpecification,
}

/// Commands to the task manager.
#[derive(Debug)]
pub enum TaskManagerCommand {
    Shutdown,
    AddPlan(Plan),
    RemovePlan(Id),
    RequestTask(Id),
    RequestTaskReceiver { plan_id: Id, worker_id: Id, start_immediately: bool },
}

/// The task manager's answers. `TaskChannel` tells a worker where its
/// plan's tasks come from; the channel itself travels beside it.
#[derive(Debug)]
pub enum TaskManagerResponse {
    ShutdownComplete,
    PlanAdded { plan_id: Id },
    PlanRemoved { plan_id: Id },
    Error { message: String },
    TaskChannel { worker_id: Id, plan_id: Id, start_immediately: bool },
}

/// What a worker's task request is answered with over its plan's channel.
#[derive(Debug)]
pub enum TaskRequestResponse {
    NewTask(Task),
    NoTaskLeft,
    PlanNotFound(Id),
}

/// Commands to the supervisor.
#[derive(Debug, Clone, Copy, PartialEq, Eq, Structural)]
pub enum SupervisorCommand {
    Shutdown,
    AssignPlan { plan_id: Id, start_immediately: bool },
    CancelPlan(Id),
    StartAll,
    CancelAll,
    StartSyncPlan(Id),
    CancelSyncPlan(Id),
}

/// The supervisor's answers.
#[derive(Debug)]
pub enum SupervisorResponse {
    PlanAssigned { plan_id: Id },
    PlanCancelled { worker_id: Id, plan_id: Id },
    ShutdownComplete,
    AllStarted,
    AllCancelled,
    Error { message: String },
}

/// Commands to a worker. `AssignPlan` hands the worker its plan; the task
/// channel travels beside it.
#[derive(Debug, Clone, Copy, PartialEq, Eq, Structural)]
pub enum WorkerCommand {
    Shutdown,
    AssignPlan { plan_id: Id, start_immediately: bool },
    StartSync,
    CancelPlan(Id),
    PauseSync,
}

/// A worker's answers to the supervisor.
#[derive(Debug)]
pub enum WorkerResponse {
    ShutdownComplete(Id),
    PlanAssigned { worker_id: Id, plan_id: Id, sync_started: bool },
    PlanCancelled { worker_id: Id, plan_id: Id },
    StartOk { worker_id: Id, plan_id: Id },
    StartFailed { worker_id: Id, reason: String },
}

/// The commands a worker of the first engine design took.
#[derive(Debug, Clone, Copy, PartialEq, Eq, Structural)]
pub enum WorkerCommands {
    CancelTask,
    PauseTask,
    ResumeTask,
    Shutdown,
}

} // verus!
