use data_sync_tool::decoupled::{
    Queue, QueueFactory, RequestRateLimiterA, Task, TaskManager as QueueManager, TaskQueueA, TaskQueueABuilder,
};
use data_sync_tool::rate_limiter::WebRequestRateLimiter;
use data_sync_tool::task::{
    GetTaskRequest, RateLimiterImpls, RateQuota, RequestMethod, SyncConfig, SyncPlan, SyncTask,
    TaskSpecification, TaskStatus,
};
use data_sync_tool::task_manager::{FetchAction, TaskManager, TaskManagerError, TaskManagerState};
use data_sync_tool::task_queue::{
    create_task_queue, new_empty_limitless_queue, QueueError, QueueStatus, SyncTaskQueue,
    SyncTaskQueueBuilder,
};

fn spec(url: &str) -> TaskSpecification {
    TaskSpecification::new(url.to_string(), RequestMethod::Get, vec![], None)
}

fn task(id: u128, plan: u128) -> SyncTask {
    SyncTask::new(id, Some(plan), spec("http://example.com"))
}

fn plan(id: u128, task_ids: &[u128], quota: Option<RateQuota>) -> SyncPlan {
    SyncPlan {
        id,
        tasks: task_ids.iter().map(|t| task(*t, id)).collect(),
        sync_config: SyncConfig { sync_rate_quota: quota },
    }
}

fn ids(tasks: &[SyncTask]) -> Vec<u128> {
    tasks.iter().map(|t| t.id).collect()
}

#[test]
fn queue_hands_out_tasks_first_in_first_out() {
    let mut q = SyncTaskQueue::new(vec![task(1, 9), task(2, 9)], None, None, 9);
    q.start_sending_tasks();
    q.push_back(task(3, 9));
    assert_eq!(q.pop_front().unwrap().id, 1);
    assert_eq!(q.pop_front().unwrap().id, 2);
    assert_eq!(q.pop_front().unwrap().id, 3);
    assert!(matches!(q.pop_front(), Err(QueueError::NothingToSend)));
    assert_eq!(q.initial_size, 3);
}

#[test]
fn queue_refuses_before_start_while_paused_and_after_stop() {
    let mut q = SyncTaskQueue::new(vec![task(1, 9)], None, None, 9);
    match q.pop_front() {
        Err(QueueError::SendingNotStarted(m)) => assert_eq!(m, "Please call start before sending tasks"),
        _ => panic!("a queue not started hands out nothing"),
    }
    q.start_sending_tasks();
    q.pause();
    match q.pop_front() {
        Err(QueueError::QueuePaused(m)) => {
            assert_eq!(m, "Queue is paused. Please call resume to begin sending tasks.")
        }
        _ => panic!("a paused queue hands out nothing"),
    }
    assert_eq!(q.len(), 1);
    q.resume();
    assert_eq!(q.pop_front().unwrap().id, 1);
    q.push_back(task(2, 9));
    let unsent = q.stop();
    assert_eq!(ids(&unsent), vec![2]);
    assert!(matches!(q.pop_front(), Err(QueueError::QueueStopped(_))));
    assert!(q.is_stopped());
}

#[test]
fn queue_answers_only_requests_for_its_plan() {
    let mut q = SyncTaskQueue::new(vec![task(1, 9)], None, None, 9);
    q.start_sending_tasks();
    match q.fetch_for_request(None) {
        Err(QueueError::EmptyRequestReceived(m)) => {
            assert_eq!(m, "Expected to receive a task request but received none!")
        }
        _ => panic!("an empty request is refused"),
    }
    assert!(matches!(
        q.fetch_for_request(Some(GetTaskRequest::new(8))),
        Err(QueueError::UnmatchedSyncPlanId)
    ));
    assert_eq!(q.fetch_for_request(Some(GetTaskRequest::new(9))).unwrap().id, 1);
}

#[test]
fn queue_with_a_spent_limiter_is_rate_limited() {
    let limiter = WebRequestRateLimiter::new(1, None, Some(30)).unwrap();
    let mut q = SyncTaskQueue::new(vec![task(1, 9), task(2, 9)], Some(limiter), None, 9);
    q.start_sending_tasks();
    assert_eq!(q.pop_front().unwrap().id, 1);
    assert!(matches!(q.pop_front(), Err(QueueError::RateLimited(true, 30))));
    assert!(matches!(q.pop_front(), Err(QueueError::RateLimited(false, 30))));
    assert_eq!(q.len(), 1);
}

#[test]
fn queue_with_a_spent_daily_budget_is_refused() {
    let limiter = WebRequestRateLimiter::new(5, Some(0), None).unwrap();
    let mut q = SyncTaskQueue::new(vec![task(1, 9)], Some(limiter), None, 9);
    q.start_sending_tasks();
    assert!(matches!(q.pop_front(), Err(QueueError::DailyLimitExceeded)));
}

#[test]
fn retries_follow_the_limit() {
    let mut unlimited = new_empty_limitless_queue(None, 4);
    assert!(unlimited.can_retry());
    unlimited.retry(task(1, 4));
    assert_eq!(unlimited.len(), 1);

    let mut none_left = new_empty_limitless_queue(Some(0), 4);
    assert!(!none_left.can_retry());
    none_left.retry(task(1, 4));
    assert_eq!(none_left.len(), 0);

    let two = new_empty_limitless_queue(Some(2), 4);
    assert!(two.can_retry());
}

#[test]
fn queue_drains_a_range() {
    let mut q = SyncTaskQueue::new(vec![task(1, 9), task(2, 9), task(3, 9), task(4, 9)], None, None, 9);
    let taken = q.drain(1, 3);
    assert_eq!(ids(&taken), vec![2, 3]);
    assert_eq!(q.len(), 2);
    assert_eq!(q.front().unwrap().id, 1);
    let rest = q.drain_all();
    assert_eq!(ids(&rest), vec![1, 4]);
    assert!(q.is_empty());
}

#[test]
fn builder_and_factory_make_queues() {
    let q = SyncTaskQueueBuilder::new().with_sync_plan_id(5).with_max_retry(3).build();
    assert_eq!(q.sync_plan_id, 5);
    assert_eq!(q.max_retry, Some(3));
    assert_eq!(q.retries_left, Some(3));
    assert_eq!(q.status, QueueStatus::Initialized);
    assert!(q.is_empty());

    let quota = RateQuota {
        use_impl: RateLimiterImpls::WebRequestRateLimiter,
        max_line_per_request: 10,
        daily_limit: 100,
        cooldown_seconds: 5,
        max_retry: 7,
    };
    let p = plan(6, &[10, 11], Some(quota));
    let q = create_task_queue(6, Some(&p), None);
    assert_eq!(ids(&q.tasks.iter().cloned().collect::<Vec<_>>()), vec![10, 11]);
    assert_eq!(q.max_retry, Some(7));
    assert_eq!(q.initial_size, 2);
}

#[test]
fn manager_loads_plans_and_hands_out_their_tasks() {
    let mut tm = TaskManager::new(vec![]);
    assert_eq!(tm.current_state, TaskManagerState::Initialized);
    let p = plan(1, &[100, 101], None);
    assert!(tm.load_sync_plan(&p, None).is_ok());
    assert!(tm.queues.contains_key(&1));
    tm.begin_listening();
    assert!(tm.is_running());
    let got = tm.fetch_task(1, Some(GetTaskRequest::new(1))).unwrap();
    match tm.handle_fetch_result(1, got) {
        FetchAction::SendTask(t) => assert_eq!(t.id, 100),
        _ => panic!("the first task goes out"),
    }
    let progress = tm.report_task_sending_progress(1).unwrap();
    assert_eq!(progress.task_sent, 1);
    assert_eq!(progress.total_tasks, 2);
    assert!(tm.fetch_task(2, Some(GetTaskRequest::new(2))).is_none());
    assert!(matches!(tm.report_task_sending_progress(2), Err(TaskManagerError::QueueNotFound)));
}

#[test]
fn manager_refuses_a_plan_and_limiter_that_do_not_match() {
    let mut tm = TaskManager::new(vec![]);
    let limiter = WebRequestRateLimiter::new(1, None, None).unwrap();
    let p = plan(1, &[100], None);
    assert!(matches!(tm.load_sync_plan(&p, Some(limiter)), Err(TaskManagerError::MissingRateLimitParam)));
    let quota = RateQuota {
        use_impl: RateLimiterImpls::WebRequestRateLimiter,
        max_line_per_request: 10,
        daily_limit: 100,
        cooldown_seconds: 5,
        max_retry: 7,
    };
    let p = plan(2, &[200], Some(quota));
    assert!(matches!(tm.load_sync_plan(&p, None), Err(TaskManagerError::RateLimiterNotSet(_))));
    assert!(tm.queues.is_empty());
    assert!(tm.load_sync_plan_with_limiter(&p).is_ok());
    assert!(tm.queues.get(&2).unwrap().rate_limiter.is_some());
}

#[test]
fn failed_tasks_come_back_while_retries_are_left() {
    let quota = RateQuota {
        use_impl: RateLimiterImpls::WebRequestRateLimiter,
        max_line_per_request: 10,
        daily_limit: 100,
        cooldown_seconds: 5,
        max_retry: 1,
    };
    let mut tm = TaskManager::new(vec![]);
    let p = plan(3, &[300], Some(quota));
    assert!(tm.load_sync_plan_with_limiter(&p).is_ok());
    assert!(tm.handle_failed_task(task(301, 3)));
    assert_eq!(tm.queues.get(&3).unwrap().front().unwrap().id, 301);
    assert!(!tm.handle_failed_task(task(302, 3)));
    assert_eq!(tm.queues.get(&3).unwrap().len(), 2);
}

#[test]
fn stopping_and_removing_hands_back_unsent_tasks() {
    let mut tm = TaskManager::new(vec![]);
    assert!(tm.load_sync_plan(&plan(1, &[1, 2], None), None).is_ok());
    assert!(tm.load_sync_plan(&plan(2, &[3], None), None).is_ok());
    let unsent = tm.stop_and_remove_sync_plan(1).unwrap();
    assert_eq!(ids(&unsent), vec![1, 2]);
    assert!(tm.queues.get(&1).is_none());
    assert!(matches!(tm.stop_and_remove_sync_plan(1), Err(TaskManagerError::QueueNotFound)));
    assert!(matches!(tm.stop_and_remove_sync_plan(9), Err(TaskManagerError::QueueNotFound)));
    assert!(tm.pause_sending_task(2).is_ok());
    assert!(tm.queues.get(&2).unwrap().is_paused());
    assert!(tm.resume_sending_tasks(2).is_ok());
    assert!(tm.queues.get(&2).unwrap().is_running());
    assert!(tm.graceful_shutdown().is_ok());
    assert_eq!(tm.current_state, TaskManagerState::Stopped);
    assert!(tm.all_queues_are_empty());
}

#[test]
fn tasks_change_status_as_they_run() {
    let mut t = task(1, 2);
    assert_eq!(t.status, TaskStatus::Pending);
    t.start(10);
    assert_eq!(t.status, TaskStatus::Running);
    assert_eq!(t.start_time, Some(10));
    t.finished(20);
    assert_eq!(t.status, TaskStatus::Finished);
    assert_eq!(t.end_time, Some(20));
    t.failed(30);
    assert_eq!(t.status, TaskStatus::Failed);
}

#[test]
fn task_manager_test_add_tasks_to_a_single_queue() {
    let max_retry: u32 = 15;
    let test_rate_limiter = WebRequestRateLimiter::new(30, None, Some(3)).unwrap();
    let mut task_queue = SyncTaskQueue::new(vec![], Some(test_rate_limiter), Some(max_retry), 77);
    let tasks: Vec<SyncTask> = (1..=100u128).map(|i| task(i, 77)).collect();
    let first_task = tasks[0].clone();
    for t in tasks {
        task_queue.push_back(t);
    }
    assert_eq!(task_queue.len(), 100);
    if let Some(t1) = task_queue.front() {
        assert_eq!(t1.id, first_task.id, "Task id not equal!");
    } else {
        panic!("the queue holds the tasks pushed");
    }
}

#[test]
fn factory_builds_empty_queues_with_their_parts() {
    let queue = QueueFactory::create_queue::<TaskQueueABuilder<RequestRateLimiterA, u8>, RequestRateLimiterA, u8>(
        RequestRateLimiterA,
        3,
    );
    assert!(queue.queue.is_empty());
    assert_eq!(queue.task_receiver, 3);
    assert_eq!(queue.describe(), "I am Product A");
    let mut manager: QueueManager<TaskQueueA<RequestRateLimiterA, u8>> = QueueManager::new();
    manager.add_tasks_to_queue(vec![Task, Task], RequestRateLimiterA, 5u8);
    assert_eq!(manager.queue.len(), 1);
    assert_eq!(manager.queue[0].queue.len(), 2);
}

#[test]
fn rate_limited_queues_without_a_limiter_are_not_asked() {
    let mut tm = TaskManager::new(vec![]);
    assert!(tm.load_sync_plan(&plan(1, &[1], None), None).is_ok());
    assert!(tm.queue_can_fetch(1));
    assert!(tm.queue_can_fetch(42));
    tm.queues.get_mut(&1).unwrap().status = QueueStatus::RateLimited(3);
    assert!(!tm.queue_can_fetch(1));
}

#[test]
fn a_batch_loads_every_plan_with_its_limiter() {
    let quota = RateQuota {
        use_impl: RateLimiterImpls::WebRequestRateLimiter,
        max_line_per_request: 10,
        daily_limit: 100,
        cooldown_seconds: 3,
        max_retry: 4,
    };
    let plans = vec![plan(1, &[1, 2], None), plan(2, &[3], Some(quota))];
    let limiter = WebRequestRateLimiter::new(10, Some(100), Some(3)).unwrap();
    let mut tm = TaskManager::new(vec![]);
    assert!(tm.load_sync_plans(&plans, vec![None, Some(limiter)]).is_ok());
    assert_eq!(ids(&tm.queues.get_mut(&1).unwrap().stop()), vec![1, 2]);
    let q2 = tm.queues.get(&2).unwrap();
    assert_eq!(q2.len(), 1);
    assert_eq!(q2.max_retry, Some(4));
    assert!(q2.rate_limiter.is_some());

    let mut tm = TaskManager::new(vec![]);
    assert!(tm.load_sync_plans(&plans, vec![None, None]).is_err());
    assert!(tm.queues.contains_key(&1));
    assert!(!tm.queues.contains_key(&2));
}

#[test]
fn a_granted_request_records_its_time() {
    let limiter = WebRequestRateLimiter::new(10, None, None).unwrap();
    let mut q = SyncTaskQueue::new(vec![task(1, 9)], Some(limiter), None, 9);
    q.start_sending_tasks();
    assert!(q.rate_limiter.as_ref().unwrap().last_request_time().is_none());
    assert_eq!(q.pop_front().unwrap().id, 1);
    assert!(q.rate_limiter.as_ref().unwrap().last_request_time().is_some());
}

#[test]
fn listening_ends_when_every_queue_is_done() {
    let mut tm = TaskManager::new(vec![]);
    assert!(tm.load_sync_plan(&plan(1, &[1], None), None).is_ok());
    assert!(tm.listening_is_over(&vec![1]));
    tm.begin_listening();
    assert!(!tm.listening_is_over(&vec![1]));
    assert!(tm.listening_is_over(&vec![7]));
    tm.queues.get_mut(&1).unwrap().finished();
    assert!(tm.listening_is_over(&vec![1, 7]));
}
