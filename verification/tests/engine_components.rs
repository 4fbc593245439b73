use data_sync_tool::engine::commands::{
    ComponentState, EngineCommands, EngineResponse, Plan, SupervisorCommand, SupervisorResponse,
    TaskManagerCommand, TaskManagerResponse, TaskRequestResponse, WorkerCommand, WorkerResponse,
};
use data_sync_tool::engine::proxy::{
    add_plan_result, engine_channel_sizes, engine_request, is_awaited, wait_result, EngineOperation,
};
use data_sync_tool::engine::supervisor::{Supervisor, SupervisorAction, WorkerAssignmentState};
use data_sync_tool::engine::sync_engine::{EngineAction, SyncEngine};
use data_sync_tool::engine::task_manager::{TaskManager, TaskManagerOutput};
use data_sync_tool::engine::worker::{
    sync_step, task_request, SyncEvent, SyncStep, Worker, WorkerAction, WorkerError, WorkerState,
};
use data_sync_tool::task::{RequestMethod, TaskSpecification};

fn spec(url: &str) -> TaskSpecification {
    TaskSpecification::new(url.to_string(), RequestMethod::Get, vec![], None)
}

fn plan(id: u128, n: usize) -> Plan {
    Plan { plan_id: id, task_specs: (0..n).map(|i| spec(&format!("http://h/{}", i))).collect() }
}

#[test]
fn engine_passes_a_new_plan_to_task_manager_then_supervisor() {
    let mut engine = SyncEngine::new(None);
    assert_eq!(engine.response_timeout_ms, 5000);
    engine.start();
    let actions = engine.handle_command(EngineCommands::AddPlan { plan: plan(7, 2), start_immediately: false });
    assert_eq!(actions.len(), 2);
    match &actions[0] {
        EngineAction::ToTaskManager(TaskManagerCommand::AddPlan(p)) => assert_eq!(p.plan_id, 7),
        _ => panic!("the plan goes to the task manager first"),
    }
    match &actions[1] {
        EngineAction::ToSupervisor(SupervisorCommand::AssignPlan { plan_id, start_immediately }) => {
            assert_eq!(*plan_id, 7);
            assert!(!start_immediately);
        }
        _ => panic!("then the supervisor assigns it"),
    }
    assert!(engine.handle_command(EngineCommands::PausePlan(7)).is_empty());
    let shutdown = engine.handle_command(EngineCommands::Shutdown);
    assert_eq!(shutdown.len(), 3);
    assert!(matches!(shutdown[2], EngineAction::Respond(EngineResponse::ShutdownComplete)));
    assert!(engine.is_stopped());
    assert_eq!(engine.state, ComponentState::Stopped);
}

#[test]
fn engine_turns_component_answers_into_its_own() {
    let engine = SyncEngine::new(Some(100));
    assert_eq!(
        engine.handle_task_manager_response(TaskManagerResponse::PlanAdded { plan_id: 3 }),
        Some(EngineResponse::PlanAdded { plan_id: 3 })
    );
    assert_eq!(
        engine.handle_task_manager_response(TaskManagerResponse::Error { message: "boom".to_string() }),
        Some(EngineResponse::Error { message: "boom".to_string(), component: "TaskManager".to_string() })
    );
    assert_eq!(
        engine.handle_supervisor_response(SupervisorResponse::AllStarted),
        Some(EngineResponse::SyncStarted)
    );
    assert_eq!(
        engine.handle_supervisor_response(SupervisorResponse::ShutdownComplete),
        Some(EngineResponse::ComponentShutdownComplete("Supervisor".to_string()))
    );
    assert_eq!(engine.handle_supervisor_response(SupervisorResponse::PlanAssigned { plan_id: 1 }), None);
}

#[test]
fn engine_task_manager_hands_out_a_plans_tasks_in_order() {
    let mut tm = TaskManager::new();
    let out = tm.handle_command(TaskManagerCommand::AddPlan(plan(5, 2)));
    assert!(matches!(out[0], TaskManagerOutput::Respond(TaskManagerResponse::PlanAdded { plan_id: 5 })));
    for expected in ["http://h/0", "http://h/1"] {
        let out = tm.handle_command(TaskManagerCommand::RequestTask(5));
        match &out[0] {
            TaskManagerOutput::SendTask { plan_id, response: TaskRequestResponse::NewTask(t) } => {
                assert_eq!(*plan_id, 5);
                assert_eq!(t.plan_id, 5);
                assert_eq!(t.spec.request_endpoint, expected);
            }
            _ => panic!("a task of the plan goes out"),
        }
    }
    let out = tm.handle_command(TaskManagerCommand::RequestTask(5));
    assert!(matches!(out[0], TaskManagerOutput::SendTask { response: TaskRequestResponse::NoTaskLeft, .. }));
    let out = tm.handle_command(TaskManagerCommand::RequestTaskReceiver { plan_id: 9, worker_id: 1, start_immediately: true });
    match &out[0] {
        TaskManagerOutput::Respond(TaskManagerResponse::Error { message }) => {
            assert_eq!(message, &format!("No task sender found for plan {}", uuid::Uuid::from_u128(9)))
        }
        _ => panic!("an unknown plan has no task channel"),
    }
    let out = tm.handle_command(TaskManagerCommand::RemovePlan(5));
    assert!(matches!(out[0], TaskManagerOutput::Respond(TaskManagerResponse::PlanRemoved { plan_id: 5 })));
    assert!(!tm.task_queues.contains_key(&5));
    for _ in 0..3 {
        let out = tm.handle_command(TaskManagerCommand::RequestTask(5));
        assert_eq!(out.len(), 1);
        match &out[0] {
            TaskManagerOutput::SendTask { plan_id: 5, response: TaskRequestResponse::NoTaskLeft } => {}
            _ => panic!("a removed plan has no task left"),
        }
    }
}

#[test]
fn supervisor_assigns_starts_and_frees_a_worker() {
    let (mut sup, ids) = Supervisor::new(Some(1), None);
    assert_eq!(ids.len(), 1);
    let w = ids[0];
    assert_eq!(sup.worker_assignment.get(&w), Some(&WorkerAssignmentState::Idle));
    sup.start();
    let actions = sup.handle_command(SupervisorCommand::AssignPlan { plan_id: 8, start_immediately: false });
    assert_eq!(actions.len(), 1);
    match &actions[0] {
        SupervisorAction::ToTaskManager(TaskManagerCommand::RequestTaskReceiver { plan_id, worker_id, .. }) => {
            assert_eq!(*plan_id, 8);
            assert_eq!(*worker_id, w);
        }
        _ => panic!("the task manager is asked for the plan's channel"),
    }
    assert_eq!(sup.worker_assignment.get(&w), Some(&WorkerAssignmentState::Ready));
    assert!(sup.handle_command(SupervisorCommand::AssignPlan { plan_id: 9, start_immediately: false }).is_empty());

    let to_worker = sup.handle_task_manager_response(TaskManagerResponse::TaskChannel { worker_id: w, plan_id: 8, start_immediately: false });
    assert!(matches!(to_worker, Some(SupervisorAction::ToWorker { command: WorkerCommand::AssignPlan { plan_id: 8, .. }, .. })));

    let answer = sup.handle_worker_response(WorkerResponse::PlanAssigned { worker_id: w, plan_id: 8, sync_started: false });
    assert!(matches!(answer, Some(SupervisorResponse::PlanAssigned { plan_id: 8 })));
    assert_eq!(sup.worker_assignment.get(&w), Some(&WorkerAssignmentState::PlanAssigned(8)));

    let start = sup.handle_command(SupervisorCommand::StartAll);
    assert_eq!(start.len(), 2);
    assert!(matches!(start[0], SupervisorAction::ToWorker { command: WorkerCommand::StartSync, .. }));
    assert!(matches!(start[1], SupervisorAction::Respond(SupervisorResponse::AllStarted)));

    assert!(sup.handle_worker_response(WorkerResponse::StartOk { worker_id: w, plan_id: 8 }).is_none());
    assert_eq!(sup.worker_assignment.get(&w), Some(&WorkerAssignmentState::Running(8)));

    let cancel = sup.handle_command(SupervisorCommand::CancelPlan(8));
    assert!(matches!(cancel[0], SupervisorAction::ToWorker { command: WorkerCommand::CancelPlan(8), .. }));
    let all = sup.handle_command(SupervisorCommand::CancelAll);
    assert_eq!(all.len(), 2);
    assert!(matches!(all[1], SupervisorAction::Respond(SupervisorResponse::AllCancelled)));

    sup.handle_worker_response(WorkerResponse::PlanCancelled { worker_id: w, plan_id: 8 });
    assert_eq!(sup.worker_assignment.get(&w), Some(&WorkerAssignmentState::Idle));

    let down = sup.handle_command(SupervisorCommand::Shutdown);
    assert_eq!(down.len(), 1);
    assert!(!sup.all_workers_down());
    sup.handle_worker_response(WorkerResponse::ShutdownComplete(w));
    assert!(sup.all_workers_down());
    assert!(matches!(sup.finish_shutdown(), SupervisorAction::Respond(SupervisorResponse::ShutdownComplete)));
    assert!(sup.is_stopped());
}

#[test]
fn supervisor_makes_ten_workers_by_default() {
    let (sup, ids) = Supervisor::new(None, Some(10));
    assert_eq!(ids.len(), 10);
    assert_eq!(sup.worker_ids.len(), 10);
    assert_eq!(sup.response_timeout_ms, 10);
}

#[test]
fn engine_worker_syncs_then_cancels() {
    let mut w = Worker::new(4, None, None);
    assert_eq!(w.request_per_minute, 50);
    assert_eq!(w.response_timeout_ms, 5000);
    w.start();
    let held = w.handle_command(WorkerCommand::AssignPlan { plan_id: 2, start_immediately: false });
    assert!(matches!(held[0], WorkerAction::Respond(WorkerResponse::PlanAssigned { worker_id: 4, plan_id: 2, sync_started: false })));
    let started = w.handle_command(WorkerCommand::StartSync);
    assert!(matches!(started[0], WorkerAction::StartSync { plan_id: 2, interval_ms: 1200 }));
    assert!(matches!(started[1], WorkerAction::Respond(WorkerResponse::StartOk { worker_id: 4, plan_id: 2 })));
    assert!(w.state == WorkerState::Working { plan_id: 2 });
    assert!(w.handle_command(WorkerCommand::CancelPlan(3)).is_empty());
    let cancelled = w.handle_command(WorkerCommand::CancelPlan(2));
    assert!(matches!(cancelled[0], WorkerAction::AbortSync));
    assert!(w.state == WorkerState::Idle);
    assert_eq!(w.assigned_plan_id, None);
    let down = w.handle_command(WorkerCommand::Shutdown);
    assert_eq!(down.len(), 1);
    assert!(matches!(w.state, WorkerState::Stopped));
}

#[test]
fn worker_states_compare_as_declared() {
    assert!(WorkerState::Idle == WorkerState::Idle);
    assert!(WorkerState::Working { plan_id: 1 } == WorkerState::Working { plan_id: 1 });
    assert!(WorkerState::Working { plan_id: 1 } != WorkerState::Working { plan_id: 2 });
    assert!(WorkerState::Created != WorkerState::Created);
    assert!(WorkerState::Stopped != WorkerState::Stopped);
}

#[test]
fn sync_rounds_end_as_their_answers_say() {
    assert!(matches!(task_request(3), TaskManagerCommand::RequestTask(3)));
    assert!(matches!(sync_step(SyncEvent::Received(TaskRequestResponse::NoTaskLeft)), SyncStep::Finished));
    assert!(matches!(sync_step(SyncEvent::SendFailed), SyncStep::Failed(WorkerError::SendFailed)));
    assert!(matches!(sync_step(SyncEvent::ReceiveFailed), SyncStep::Failed(WorkerError::TaskReceiverChannelClosed)));
    assert!(matches!(
        sync_step(SyncEvent::Received(TaskRequestResponse::PlanNotFound(6))),
        SyncStep::Failed(WorkerError::PlanNotFound(6))
    ));
}

#[test]
fn proxy_sends_commands_and_waits_for_their_answers() {
    let (cmd, awaited) = engine_request(EngineOperation::AddPlan { plan: plan(11, 0), start_immediately: true });
    assert!(matches!(cmd, EngineCommands::AddPlan { start_immediately: true, .. }));
    assert_eq!(awaited, Some(EngineResponse::PlanAdded { plan_id: 11 }));
    let (cmd, awaited) = engine_request(EngineOperation::PauseSync);
    assert!(matches!(cmd, EngineCommands::CancelSync));
    assert_eq!(awaited, None);
    let (cmd, awaited) = engine_request(EngineOperation::PauseSyncPlan(4));
    assert!(matches!(cmd, EngineCommands::PausePlan(4)));
    assert_eq!(awaited, None);
    assert!(is_awaited(&EngineResponse::SyncStarted, &EngineResponse::SyncStarted));
    assert!(!is_awaited(&EngineResponse::SyncStarted, &EngineResponse::SyncCancelled));
    assert_eq!(wait_result(false), Err("Failed to receive expected response from engine".to_string()));
    assert_eq!(add_plan_result(11, Ok(())), Ok(11));
    assert_eq!(
        add_plan_result(11, Err("x".to_string())),
        Err("Unexpected response while adding plan".to_string())
    );
    assert_eq!(engine_channel_sizes(None), (100, 500));
    assert_eq!(engine_channel_sizes(Some(8)), (8, 40));
}
