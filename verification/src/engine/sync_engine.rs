//! The engine: it takes commands from its users and passes them on to the
//! task manager and the supervisor, and turns their responses into its own.

use vstd::prelude::*;
use vstd::string::StringExecFns;
use crate::ids::Id;
use super::commands::{
    ComponentState, EngineCommands, EngineResponse, TaskManagerCommand, TaskManagerResponse,
    SupervisorCommand, SupervisorResponse,
};

verus! {

/// What the engine does in answer to a command: a message to a component,
/// or an answer to its users.
#[derive(Debug)]
pub enum EngineAction {
    ToTaskManager(TaskManagerCommand),
    ToSupervisor(SupervisorCommand),
    Respond(EngineResponse),
}

/// The engine's own state; its channels are held by whoever runs it.
#[derive(Debug)]
pub struct SyncEngine {
    pub state: ComponentState,
    pub response_timeout_ms: u64,
}

/// What the engine does in answer to a command: shutdown goes to the
/// supervisor and then to the task manager before the engine answers; a new
/// plan goes to the task manager and then to the supervisor for assignment;
/// a removed plan is cancelled with the supervisor and then removed from the
/// task manager; starting and cancelling go to the supervisor. Pausing a
/// plan does nothing.
pub open spec fn engine_actions(cmd: EngineCommands) -> Seq<EngineAction> {
    match cmd {
        EngineCommands::Shutdown => seq![
            EngineAction::ToSupervisor(SupervisorCommand::Shutdown),
            EngineAction::ToTaskManager(TaskManagerCommand::Shutdown),
            EngineAction::Respond(EngineResponse::ShutdownComplete),
        ],
        EngineCommands::AddPlan { plan, start_immediately } => seq![
            EngineAction::ToTaskManager(TaskManagerCommand::AddPlan(plan)),
            EngineAction::ToSupervisor(
                SupervisorCommand::AssignPlan { plan_id: plan.plan_id, start_immediately },
            ),
        ],
        EngineCommands::RemovePlan(plan_id) => seq![
            EngineAction::ToSupervisor(SupervisorCommand::CancelPlan(plan_id)),
            EngineAction::ToTaskManager(TaskManagerCommand::RemovePlan(plan_id)),
        ],
        EngineCommands::StartSync => seq![EngineAction::ToSupervisor(SupervisorCommand::StartAll)],
        EngineCommands::CancelSync => seq![EngineAction::ToSupervisor(SupervisorCommand::CancelAll)],
        EngineCommands::StartPlan(plan_id) => seq![
            EngineAction::ToSupervisor(SupervisorCommand::StartSyncPlan(plan_id)),
        ],
        EngineCommands::CancelPlan(plan_id) => seq![
            EngineAction::ToSupervisor(SupervisorCommand::CancelSyncPlan(plan_id)),
        ],
        EngineCommands::PausePlan(_) => Seq::empty(),
    }
}

/// The engine's answer to a task manager response, if any: `Some(s)` for a
/// component shutdown or an error names the component.
pub open spec fn engine_answer_to_task_manager(resp: TaskManagerResponse, r: Option<EngineResponse>) -> bool {
    match resp {
        TaskManagerResponse::PlanAdded { plan_id } => r == Some(EngineResponse::PlanAdded { plan_id }),
        TaskManagerResponse::PlanRemoved { plan_id } => r == Some(EngineResponse::PlanRemoved { plan_id }),
        TaskManagerResponse::ShutdownComplete => r matches Some(EngineResponse::ComponentShutdownComplete(c))
            && c@ == "TaskManager"@,
        TaskManagerResponse::Error { message } => r matches Some(EngineResponse::Error { message: m, component: c })
            && m@ == message@ && c@ == "TaskManager"@,
        TaskManagerResponse::TaskChannel { .. } => r is None,
    }
}

/// The engine's answer to a supervisor response, if any.
pub open spec fn engine_answer_to_supervisor(resp: SupervisorResponse, r: Option<EngineResponse>) -> bool {
    match resp {
        SupervisorResponse::PlanAssigned { .. } => r is None,
        SupervisorResponse::PlanCancelled { .. } => r is None,
        SupervisorResponse::ShutdownComplete => r matches Some(EngineResponse::ComponentShutdownComplete(c))
            && c@ == "Supervisor"@,
        SupervisorResponse::AllStarted => r == Some(EngineResponse::SyncStarted),
        SupervisorResponse::AllCancelled => r == Some(EngineResponse::SyncCancelled),
        SupervisorResponse::Error { message } => r matches Some(EngineResponse::Error { message: m, component: c })
            && m@ == message@ && c@ == "Supervisor"@,
    }
}

impl SyncEngine {
    /// A new engine; its response timeout is 5 seconds unless given.
    pub fn new(response_timeout_ms: Option<u64>) -> (r: SyncEngine)
        ensures
            r.state == ComponentState::Created,
            r.response_timeout_ms == (match response_timeout_ms {
                Some(t) => t,
                None => 5000,
            }),
    {
        let timeout = match response_timeout_ms {
            Some(t) => t,
            None => 5000,
        };
        SyncEngine { state: ComponentState::Created, response_timeout_ms: timeout }
    }

    /// The engine starts running.
    pub fn start(&mut self)
        ensures
            final(self).state == ComponentState::Running,
            final(self).response_timeout_ms == old(self).response_timeout_ms,
    {
        self.state = ComponentState::Running;
    }

    /// The engine stopped, so its loop ends.
    pub fn is_stopped(&self) -> (r: bool)
        ensures
            r == (self.state == ComponentState::Stopped),
    {
        self.state == ComponentState::Stopped
    }

    /// Shuts the engine down: the supervisor and then the task manager are
    /// told to shut down, the engine stops, and its users are told.
    pub fn handle_shutdown(&mut self) -> (r: Vec<EngineAction>)
        ensures
            final(self).state == ComponentState::Stopped,
            final(self).response_timeout_ms == old(self).response_timeout_ms,
            r@ == engine_actions(EngineCommands::Shutdown),
    {
        let mut actions: Vec<EngineAction> = Vec::new();
        actions.push(EngineAction::ToSupervisor(SupervisorCommand::Shutdown));
        actions.push(EngineAction::ToTaskManager(TaskManagerCommand::Shutdown));
        self.state = ComponentState::Stopped;
        actions.push(EngineAction::Respond(EngineResponse::ShutdownComplete));
        actions
    }

    /// Passes a command on. A new plan goes to the task manager, and then the
    /// supervisor is asked to assign it; a removed plan is cancelled with
    /// the supervisor and then removed from the task manager; starting and
    /// cancelling go to the supervisor. Pausing a plan does nothing.
    pub fn handle_command(&mut self, command: EngineCommands) -> (r: Vec<EngineAction>)
        ensures
            final(self).response_timeout_ms == old(self).response_timeout_ms,
            command is Shutdown ==> final(self).state == ComponentState::Stopped,
            !(command is Shutdown) ==> final(self).state == old(self).state,
            r@ == engine_actions(command),
    {
        match command {
            EngineCommands::Shutdown => self.handle_shutdown(),
            EngineCommands::AddPlan { plan, start_immediately } => {
                let plan_id = plan.plan_id;
                let mut actions: Vec<EngineAction> = Vec::new();
                actions.push(EngineAction::ToTaskManager(TaskManagerCommand::AddPlan(plan)));
                actions.push(
                    EngineAction::ToSupervisor(SupervisorCommand::AssignPlan { plan_id, start_immediately }),
                );
                actions
            },
            EngineCommands::RemovePlan(plan_id) => {
                let mut actions: Vec<EngineAction> = Vec::new();
                actions.push(EngineAction::ToSupervisor(SupervisorCommand::CancelPlan(plan_id)));
                actions.push(EngineAction::ToTaskManager(TaskManagerCommand::RemovePlan(plan_id)));
                actions
            },
            EngineCommands::StartSync => {
                let mut actions: Vec<EngineAction> = Vec::new();
                actions.push(EngineAction::ToSupervisor(SupervisorCommand::StartAll));
                actions
            },
            EngineCommands::CancelSync => {
                let mut actions: Vec<EngineAction> = Vec::new();
                actions.push(EngineAction::ToSupervisor(SupervisorCommand::CancelAll));
                actions
            },
            EngineCommands::StartPlan(plan_id) => {
                let mut actions: Vec<EngineAction> = Vec::new();
                actions.push(EngineAction::ToSupervisor(SupervisorCommand::StartSyncPlan(plan_id)));
                actions
            },
            EngineCommands::CancelPlan(plan_id) => {
                let mut actions: Vec<EngineAction> = Vec::new();
                actions.push(EngineAction::ToSupervisor(SupervisorCommand::CancelSyncPlan(plan_id)));
                actions
            },
            EngineCommands::PausePlan(_) => Vec::new(),
        }
    }

    /// The engine's answer to a task manager response: added and removed
    /// plans, the task manager's shutdown and its errors are passed on.
    pub fn handle_task_manager_response(&self, response: TaskManagerResponse) -> (r: Option<EngineResponse>)
        ensures
            engine_answer_to_task_manager(response, r),
    {
        match response {
            TaskManagerResponse::PlanAdded { plan_id } => Some(EngineResponse::PlanAdded { plan_id }),
            TaskManagerResponse::PlanRemoved { plan_id } => Some(EngineResponse::PlanRemoved { plan_id }),
            TaskManagerResponse::ShutdownComplete => Some(
                EngineResponse::ComponentShutdownComplete(String::from_str("TaskManager")),
            ),
            TaskManagerResponse::Error { message } => Some(
                EngineResponse::Error { message, component: String::from_str("TaskManager") },
            ),
            TaskManagerResponse::TaskChannel { .. } => None,
        }
    }

    /// The engine's answer to a supervisor response: the supervisor's
    /// shutdown, all workers started or cancelled, and its errors are passed
    /// on.
    pub fn handle_supervisor_response(&self, response: SupervisorResponse) -> (r: Option<EngineResponse>)
        ensures
            engine_answer_to_supervisor(response, r),
    {
        match response {
            SupervisorResponse::PlanAssigned { .. } => None,
            SupervisorResponse::PlanCancelled { .. } => None,
            SupervisorResponse::ShutdownComplete => Some(
                EngineResponse::ComponentShutdownComplete(String::from_str("Supervisor")),
            ),
            SupervisorResponse::AllStarted => Some(EngineResponse::SyncStarted),
            SupervisorResponse::AllCancelled => Some(EngineResponse::SyncCancelled),
            SupervisorResponse::Error { message } => Some(
                EngineResponse::Error { message, component: String::from_str("Supervisor") },
            ),
        }
    }
}

/// The plan a supervisor command is about; `None` for one that reaches every
/// plan.
pub open spec fn supervisor_command_plan(c: SupervisorCommand) -> Option<Id> {
    match c {
        SupervisorCommand::AssignPlan { plan_id, .. } => Some(plan_id),
        SupervisorCommand::CancelPlan(plan_id) => Some(plan_id),
        SupervisorCommand::StartSyncPlan(plan_id) => Some(plan_id),
        SupervisorCommand::CancelSyncPlan(plan_id) => Some(plan_id),
        _ => None,
    }
}

/// The plan a task manager command is about; `None` for a shutdown.
pub open spec fn task_manager_command_plan(c: TaskManagerCommand) -> Option<Id> {
    match c {
        TaskManagerCommand::AddPlan(plan) => Some(plan.plan_id),
        TaskManagerCommand::RemovePlan(plan_id) => Some(plan_id),
        TaskManagerCommand::RequestTask(plan_id) => Some(plan_id),
        TaskManagerCommand::RequestTaskReceiver { plan_id, .. } => Some(plan_id),
        TaskManagerCommand::Shutdown => None,
    }
}

/// The plan an engine command is about; `None` for one about every plan.
pub open spec fn engine_command_plan(c: EngineCommands) -> Option<Id> {
    match c {
        EngineCommands::AddPlan { plan, .. } => Some(plan.plan_id),
        EngineCommands::RemovePlan(plan_id) => Some(plan_id),
        EngineCommands::StartPlan(plan_id) => Some(plan_id),
        EngineCommands::CancelPlan(plan_id) => Some(plan_id),
        EngineCommands::PausePlan(plan_id) => Some(plan_id),
        _ => None,
    }
}

/// An action reaches plan `plan_id` and no other: a command to a component
/// about that plan, or an answer.
pub open spec fn reaches_only(a: EngineAction, plan_id: Id) -> bool {
    match a {
        EngineAction::ToTaskManager(c) => task_manager_command_plan(c) == Some(plan_id),
        EngineAction::ToSupervisor(c) => supervisor_command_plan(c) == Some(plan_id),
        EngineAction::Respond(_) => true,
    }
}

/// A command about one plan reaches that plan and no other: every command
/// the engine passes on for it is about the same plan.
pub proof fn law_plan_commands_reach_only_their_plan(cmd: EngineCommands, plan_id: Id)
    requires
        engine_command_plan(cmd) == Some(plan_id),
    ensures
        forall|i: int| 0 <= i < engine_actions(cmd).len() ==> reaches_only(#[trigger] engine_actions(cmd)[i], plan_id),
{
}

/// Removing a plan cancels that plan with the supervisor and removes it from
/// the task manager, and sends nothing that reaches every plan.
pub proof fn law_removing_a_plan_cancels_only_it(plan_id: Id)
    ensures
        engine_actions(EngineCommands::RemovePlan(plan_id)).contains(
            EngineAction::ToSupervisor(SupervisorCommand::CancelPlan(plan_id)),
        ),
        engine_actions(EngineCommands::RemovePlan(plan_id)).contains(
            EngineAction::ToTaskManager(TaskManagerCommand::RemovePlan(plan_id)),
        ),
        !engine_actions(EngineCommands::RemovePlan(plan_id)).contains(
            EngineAction::ToSupervisor(SupervisorCommand::CancelAll),
        ),
        !engine_actions(EngineCommands::RemovePlan(plan_id)).contains(
            EngineAction::ToSupervisor(SupervisorCommand::StartAll),
        ),
        !engine_actions(EngineCommands::RemovePlan(plan_id)).contains(
            EngineAction::ToSupervisor(SupervisorCommand::Shutdown),
        ),
        !engine_actions(EngineCommands::RemovePlan(plan_id)).contains(
            EngineAction::ToTaskManager(TaskManagerCommand::Shutdown),
        ),
{
    let acts = engine_actions(EngineCommands::RemovePlan(plan_id));
    assert(acts[0] == EngineAction::ToSupervisor(SupervisorCommand::CancelPlan(plan_id)));
    assert(acts[1] == EngineAction::ToTaskManager(TaskManagerCommand::RemovePlan(plan_id)));
    law_plan_commands_reach_only_their_plan(EngineCommands::RemovePlan(plan_id), plan_id);
    assert forall|a: EngineAction| acts.contains(a) implies reaches_only(a, plan_id) by {
        let i = choose|i: int| 0 <= i < acts.len() && acts[i] == a;
        assert(reaches_only(acts[i], plan_id));
    }
    assert(!reaches_only(EngineAction::ToSupervisor(SupervisorCommand::CancelAll), plan_id));
    assert(!reaches_only(EngineAction::ToSupervisor(SupervisorCommand::StartAll), plan_id));
    assert(!reaches_only(EngineAction::ToSupervisor(SupervisorCommand::Shutdown), plan_id));
    assert(!reaches_only(EngineAction::ToTaskManager(TaskManagerCommand::Shutdown), plan_id));
}

} // verus!
