//! What a user of the engine sends for each operation, which answer it
//! waits for, and what it makes of the wait.
//!
//! The channels to the engine are held outside; this module decides the
//! command, the awaited answer and the result.

use vstd::prelude::*;
use vstd::string::StringExecFns;
use crate::ids::Id;
use super::commands::{
    EngineCommands, EngineResponse, Plan, SupervisorCommand, SupervisorResponse, TaskManagerCommand,
    TaskManagerResponse, same_engine_response, responses_match,
};
use super::sync_engine::{
    EngineAction, engine_actions, engine_answer_to_task_manager, engine_answer_to_supervisor,
};
use super::task_manager::plan_command_reply;

verus! {

/// An operation on the engine.
#[derive(Debug)]
pub enum EngineOperation {
    Shutdown,
    AddPlan { plan: Plan, start_immediately: bool },
    RemovePlan(Id),
    StartSync,
    CancelSync,
    PauseSync,
    StartPlan(Id),
    CancelPlan(Id),
    PauseSyncPlan(Id),
}

/// The command an operation sends.
pub open spec fn operation_command(op: EngineOperation) -> EngineCommands {
    match op {
        EngineOperation::Shutdown => EngineCommands::Shutdown,
        EngineOperation::AddPlan { plan, start_immediately } => EngineCommands::AddPlan { plan, start_immediately },
        EngineOperation::RemovePlan(plan_id) => EngineCommands::RemovePlan(plan_id),
        EngineOperation::StartSync => EngineCommands::StartSync,
        EngineOperation::CancelSync => EngineCommands::CancelSync,
        EngineOperation::PauseSync => EngineCommands::CancelSync,
        EngineOperation::StartPlan(plan_id) => EngineCommands::StartPlan(plan_id),
        EngineOperation::CancelPlan(plan_id) => EngineCommands::CancelPlan(plan_id),
        EngineOperation::PauseSyncPlan(plan_id) => EngineCommands::PausePlan(plan_id),
    }
}

/// The answer an operation waits for; pausing waits for none.
pub open spec fn operation_awaits(op: EngineOperation) -> Option<EngineResponse> {
    match op {
        EngineOperation::Shutdown => Some(EngineResponse::ShutdownComplete),
        EngineOperation::AddPlan { plan, .. } => Some(EngineResponse::PlanAdded { plan_id: plan.plan_id }),
        EngineOperation::RemovePlan(plan_id) => Some(EngineResponse::PlanRemoved { plan_id }),
        EngineOperation::StartSync => Some(EngineResponse::SyncStarted),
        EngineOperation::CancelSync => Some(EngineResponse::SyncCancelled),
        EngineOperation::PauseSync => None,
        EngineOperation::StartPlan(plan_id) => Some(EngineResponse::PlanStarted { plan_id }),
        EngineOperation::CancelPlan(plan_id) => Some(EngineResponse::PlanCancelled { plan_id }),
        EngineOperation::PauseSyncPlan(_) => None,
    }
}

/// The command to send for an operation, and the answer to wait for.
pub fn engine_request(op: EngineOperation) -> (r: (EngineCommands, Option<EngineResponse>))
    ensures
        r.0 == operation_command(op),
        r.1 == operation_awaits(op),
{
    match op {
        EngineOperation::Shutdown => (EngineCommands::Shutdown, Some(EngineResponse::ShutdownComplete)),
        EngineOperation::AddPlan { plan, start_immediately } => {
            let plan_id = plan.plan_id;
            (EngineCommands::AddPlan { plan, start_immediately }, Some(EngineResponse::PlanAdded { plan_id }))
        },
        EngineOperation::RemovePlan(plan_id) => (
            EngineCommands::RemovePlan(plan_id),
            Some(EngineResponse::PlanRemoved { plan_id }),
        ),
        EngineOperation::StartSync => (EngineCommands::StartSync, Some(EngineResponse::SyncStarted)),
        EngineOperation::CancelSync => (EngineCommands::CancelSync, Some(EngineResponse::SyncCancelled)),
        EngineOperation::PauseSync => (EngineCommands::CancelSync, None),
        EngineOperation::StartPlan(plan_id) => (
            EngineCommands::StartPlan(plan_id),
            Some(EngineResponse::PlanStarted { plan_id }),
        ),
        EngineOperation::CancelPlan(plan_id) => (
            EngineCommands::CancelPlan(plan_id),
            Some(EngineResponse::PlanCancelled { plan_id }),
        ),
        EngineOperation::PauseSyncPlan(plan_id) => (EngineCommands::PausePlan(plan_id), None),
    }
}

/// What a wait does with an answer: stop when it is the awaited one, else
/// wait on.
pub fn is_awaited(expected: &EngineResponse, received: &EngineResponse) -> (r: bool)
    ensures
        r == same_engine_response(*received, *expected),
{
    responses_match(received, expected)
}

/// The message of a wait that ended without the awaited answer.
pub open spec fn no_answer_message() -> Seq<char> {
    "Failed to receive expected response from engine"@
}

/// The message of an added plan whose answer did not come.
pub open spec fn add_plan_failed_message() -> Seq<char> {
    "Unexpected response while adding plan"@
}

/// The result of a wait: success when the awaited answer came, else the
/// error that says it did not.
pub fn wait_result(answered: bool) -> (r: Result<(), String>)
    ensures
        answered ==> r is Ok,
        !answered ==> (r matches Err(m) && m@ == no_answer_message()),
{
    if answered {
        Ok(())
    } else {
        Err(String::from_str("Failed to receive expected response from engine"))
    }
}

/// The result of adding a plan: its id when the engine confirmed it, else
/// the error that says so, whatever the wait's own error was.
pub fn add_plan_result(plan_id: Id, waited: Result<(), String>) -> (r: Result<Id, String>)
    ensures
        waited is Ok ==> r == Ok::<Id, String>(plan_id),
        waited is Err ==> (r matches Err(m) && m@ == add_plan_failed_message()),
{
    match waited {
        Ok(()) => Ok(plan_id),
        Err(_) => Err(String::from_str("Unexpected response while adding plan")),
    }
}

/// The sizes of the engine's channels: the command channel's, one hundred
/// unless given, and the worker results', five times that.
pub fn engine_channel_sizes(channel_size: Option<usize>) -> (r: (usize, usize))
    requires
        channel_size matches Some(n) ==> 5 * n <= usize::MAX,
    ensures
        r.0 == (match channel_size {
            Some(n) => n,
            None => 100,
        }),
        r.1 == 5 * r.0,
{
    let n = match channel_size {
        Some(n) => n,
        None => 100,
    };
    (n, 5 * n)
}

/// A plan added through the engine is confirmed to its user: the engine
/// hands the plan to the task manager first, the task manager confirms it,
/// and the engine's answer to that is the one the user waits for. A removed
/// plan goes the same way.
pub proof fn law_plan_changes_are_confirmed(plan: Plan, start_immediately: bool, plan_id: Id)
    ensures
        ({
            let op = EngineOperation::AddPlan { plan, start_immediately };
            &&& engine_actions(operation_command(op))[0] == EngineAction::ToTaskManager(
                TaskManagerCommand::AddPlan(plan),
            )
            &&& plan_command_reply(TaskManagerCommand::AddPlan(plan)) == Some(
                TaskManagerResponse::PlanAdded { plan_id: plan.plan_id },
            )
            &&& forall|answer: Option<EngineResponse>|
                engine_answer_to_task_manager(TaskManagerResponse::PlanAdded { plan_id: plan.plan_id }, answer)
                    ==> answer is Some && operation_awaits(op) is Some && same_engine_response(
                    answer->0,
                    operation_awaits(op)->0,
                )
        }),
        ({
            let op = EngineOperation::RemovePlan(plan_id);
            &&& engine_actions(operation_command(op)).contains(
                EngineAction::ToTaskManager(TaskManagerCommand::RemovePlan(plan_id)),
            )
            &&& plan_command_reply(TaskManagerCommand::RemovePlan(plan_id)) == Some(
                TaskManagerResponse::PlanRemoved { plan_id },
            )
            &&& forall|answer: Option<EngineResponse>|
                engine_answer_to_task_manager(TaskManagerResponse::PlanRemoved { plan_id }, answer)
                    ==> answer is Some && operation_awaits(op) is Some && same_engine_response(
                    answer->0,
                    operation_awaits(op)->0,
                )
        }),
{
    let op = EngineOperation::RemovePlan(plan_id);
    assert(engine_actions(operation_command(op))[1] == EngineAction::ToTaskManager(
        TaskManagerCommand::RemovePlan(plan_id),
    ));
}

/// Starting or cancelling all plans through the engine is confirmed to its
/// user once the supervisor reports it, and a shutdown is confirmed by the
/// engine itself, after the supervisor and the task manager were told.
pub proof fn law_sync_changes_are_confirmed()
    ensures
        engine_actions(operation_command(EngineOperation::StartSync)) == seq![
            EngineAction::ToSupervisor(SupervisorCommand::StartAll),
        ],
        engine_answer_to_supervisor(SupervisorResponse::AllStarted, operation_awaits(EngineOperation::StartSync)),
        engine_actions(operation_command(EngineOperation::CancelSync)) == seq![
            EngineAction::ToSupervisor(SupervisorCommand::CancelAll),
        ],
        engine_answer_to_supervisor(
            SupervisorResponse::AllCancelled,
            operation_awaits(EngineOperation::CancelSync),
        ),
        engine_actions(operation_command(EngineOperation::Shutdown)).last() == EngineAction::Respond(
            operation_awaits(EngineOperation::Shutdown)->0,
        ),
{
}

/// Every operation on one plan sends the engine the command on that same
/// plan, and waits for the answer about that plan.
pub proof fn law_plan_operations_name_their_plan(plan_id: Id, plan: Plan, start_immediately: bool)
    ensures
        operation_command(EngineOperation::StartPlan(plan_id)) == EngineCommands::StartPlan(plan_id),
        operation_command(EngineOperation::CancelPlan(plan_id)) == EngineCommands::CancelPlan(plan_id),
        operation_command(EngineOperation::RemovePlan(plan_id)) == EngineCommands::RemovePlan(plan_id),
        operation_command(EngineOperation::PauseSyncPlan(plan_id)) == EngineCommands::PausePlan(plan_id),
        operation_command((EngineOperation::AddPlan { plan, start_immediately })) == (EngineCommands::AddPlan {
            plan,
            start_immediately,
        }),
        operation_awaits(EngineOperation::StartPlan(plan_id)) == (Some(EngineResponse::PlanStarted { plan_id })),
        operation_awaits(EngineOperation::CancelPlan(plan_id)) == (Some(EngineResponse::PlanCancelled { plan_id })),
        operation_awaits(EngineOperation::RemovePlan(plan_id)) == (Some(EngineResponse::PlanRemoved { plan_id })),
{
}

} // verus!
