//! How a task manager is made: a builder of its queues and channels, and a
//! factory that makes one empty queue per requested plan.

use vstd::prelude::*;
use crate::factory::Builder;
use crate::ids::Id;
use crate::rate_limiter::{limiter_from_limits, new_web_request_limiter};
use crate::task::{CreateRateLimiterRequest, RateLimiterImpls};
use crate::task_manager::{TaskManager, TaskManagerState, queue_map};
use crate::task_queue::{QueueStatus, SyncTaskQueue, SyncTaskQueueBuilder, new_empty_limitless_queue, new_empty_queue};

verus! {

broadcast use vstd::std_specs::hash::group_hash_axioms;

/// A task manager with the channels it talks over: the tasks it sends, the
/// errors it reports, and the failed tasks that come back to it.
pub struct ConnectedTaskManager<MT, ES, MF> {
    pub manager: TaskManager,
    pub task_sender: MT,
    pub error_message_channel: ES,
    pub failed_task_channel: MF,
}

/// A builder of task managers: the queues and the channels are given one by
/// one.
pub trait TMBuilder<TQ, MT, ES, MF>: Builder {
    fn with_task_queues(self, queues: Vec<TQ>) -> Self;

    fn with_task_sender(self, task_sender: MT) -> Self;

    fn with_error_sender(self, error_sender: ES) -> Self;

    fn with_failed_task_sender(self, failed_task_sender: MF) -> Self;
}

/// The parts of a task manager, as far as they were given.
pub struct TaskManagerBuilder<MT, ES, MF> {
    pub queues: Option<Vec<SyncTaskQueue>>,
    pub task_sender: Option<MT>,
    pub error_message_channel: Option<ES>,
    pub failed_task_channel: Option<MF>,
    pub current_state: Option<TaskManagerState>,
}

impl<MT, ES, MF> TaskManagerBuilder<MT, ES, MF> {
    /// The manager's state, when one was given.
    pub fn current_state(self, state: TaskManagerState) -> (r: Self)
        ensures
            r == (TaskManagerBuilder { current_state: Some(state), ..self }),
    {
        TaskManagerBuilder { current_state: Some(state), ..self }
    }
}

impl<MT, ES, MF> Builder for TaskManagerBuilder<MT, ES, MF> {
    type Product = ConnectedTaskManager<MT, ES, MF>;

    /// The queues, each keeping its invariant, and the three channels are
    /// given.
    open spec fn ready(&self) -> bool {
        &&& self.queues matches Some(qs) && forall|i: int| 0 <= i < qs@.len() ==> (#[trigger] qs@[i]).wf()
        &&& self.task_sender is Some
        &&& self.error_message_channel is Some
        &&& self.failed_task_channel is Some
    }

    /// A builder with no parts.
    fn new() -> (r: Self)
        ensures
            r.queues is None,
            r.task_sender is None,
            r.error_message_channel is None,
            r.failed_task_channel is None,
            r.current_state is None,
    {
        TaskManagerBuilder {
            queues: None,
            task_sender: None,
            error_message_channel: None,
            failed_task_channel: None,
            current_state: None,
        }
    }

    /// The manager of the given queues, each under its plan's id, in the
    /// state given, or just made when none was, with its channels.
    fn build(self) -> (r: ConnectedTaskManager<MT, ES, MF>)
        ensures
            r.manager.queues@ == queue_map(self.queues->0@),
            r.manager.current_state == (match self.current_state {
                Some(s) => s,
                None => TaskManagerState::Initialized,
            }),
            r.manager.wf(),
            r.task_sender == self.task_sender->0,
            r.error_message_channel == self.error_message_channel->0,
            r.failed_task_channel == self.failed_task_channel->0,
    {
        match (self.queues, self.task_sender, self.error_message_channel, self.failed_task_channel) {
            (Some(queues), Some(task_sender), Some(error_message_channel), Some(failed_task_channel)) => {
                let mut manager = TaskManager::new(queues);
                match self.current_state {
                    Some(s) => {
                        manager.current_state = s;
                    },
                    None => {},
                }
                ConnectedTaskManager { manager, task_sender, error_message_channel, failed_task_channel }
            },
            _ => vstd::pervasive::unreached(),
        }
    }
}

impl<MT, ES, MF> TMBuilder<SyncTaskQueue, MT, ES, MF> for TaskManagerBuilder<MT, ES, MF> {
    fn with_task_queues(self, queues: Vec<SyncTaskQueue>) -> (r: Self)
        ensures
            r == (TaskManagerBuilder { queues: Some(queues), ..self }),
    {
        TaskManagerBuilder { queues: Some(queues), ..self }
    }

    fn with_task_sender(self, task_sender: MT) -> (r: Self)
        ensures
            r == (TaskManagerBuilder { task_sender: Some(task_sender), ..self }),
    {
        TaskManagerBuilder { task_sender: Some(task_sender), ..self }
    }

    fn with_error_sender(self, error_sender: ES) -> (r: Self)
        ensures
            r == (TaskManagerBuilder { error_message_channel: Some(error_sender), ..self }),
    {
        TaskManagerBuilder { error_message_channel: Some(error_sender), ..self }
    }

    fn with_failed_task_sender(self, failed_task_sender: MF) -> (r: Self)
        ensures
            r == (TaskManagerBuilder { failed_task_channel: Some(failed_task_sender), ..self }),
    {
        TaskManagerBuilder { failed_task_channel: Some(failed_task_sender), ..self }
    }
}

/// A task manager of the given queues, each under its plan's id, just
/// made, with its channels.
pub fn create_task_manager<MT, ES, MF>(
    task_queues: Vec<SyncTaskQueue>,
    task_sender: MT,
    error_sender: ES,
    failed_task_sender: MF,
) -> (r: ConnectedTaskManager<MT, ES, MF>)
    requires
        forall|i: int| 0 <= i < task_queues@.len() ==> (#[trigger] task_queues@[i]).wf(),
    ensures
        r.manager.queues@ == queue_map(task_queues@),
        r.manager.current_state == TaskManagerState::Initialized,
        r.manager.wf(),
        r.task_sender == task_sender,
        r.error_message_channel == error_sender,
        r.failed_task_channel == failed_task_sender,
{
    let ghost qs = task_queues@;
    let builder: TaskManagerBuilder<MT, ES, MF> = TaskManagerBuilder::new();
    let builder = builder.with_task_queues(task_queues);
    let builder = builder.with_task_sender(task_sender);
    let builder = builder.with_error_sender(error_sender);
    let builder = builder.with_failed_task_sender(failed_task_sender);
    builder.build()
}

impl Builder for SyncTaskQueueBuilder {
    type Product = SyncTaskQueue;

    /// The queue's plan is given.
    open spec fn ready(&self) -> bool {
        self.sync_plan_id is Some
    }

    /// A builder with no plan, no tasks, no limiter and no retries, in
    /// the state just made.
    fn new() -> (r: Self)
        ensures
            r.sync_plan_id is None,
            r.tasks matches Some(t) && t@.len() == 0,
            r.rate_limiter is None,
            r.max_retry is None,
            r.retries_left is None,
            r.status == Some(QueueStatus::Initialized),
            r.initial_size == Some(0usize),
    {
        SyncTaskQueueBuilder::new()
    }

    fn build(self) -> (r: SyncTaskQueue)
        ensures
            r.rate_limiter == self.rate_limiter,
            r.max_retry == self.max_retry,
            r.sync_plan_id == self.sync_plan_id->0,
            r.status == QueueStatus::Initialized,
    {
        SyncTaskQueueBuilder::build(self)
    }
}

/// What a plan's queue is made with: the plan, the limiter asked for, with
/// its limits if any, and the retries allowed.
#[derive(Debug, Clone, Copy, PartialEq, Eq, Structural)]
pub struct CreateTaskQueueRequest {
    pub sync_plan_id: Id,
    pub rate_limiter_impl: RateLimiterImpls,
    pub rate_limiter_param: Option<CreateRateLimiterRequest>,
    pub max_retry: Option<u32>,
}

/// What a task manager is made with: one request per queue.
#[derive(Debug, Clone)]
pub struct CreateTaskManagerRequest {
    pub create_task_queue_requests: Vec<CreateTaskQueueRequest>,
}

/// The empty queue a request asks for: of its plan, with its retries, and
/// with a web request limiter of its limits when it gives limits, else
/// with none.
pub open spec fn queue_for_request(req: CreateTaskQueueRequest, q: SyncTaskQueue) -> bool {
    &&& q.sync_plan_id == req.sync_plan_id
    &&& q.tasks@.len() == 0
    &&& q.max_retry == req.max_retry
    &&& q.retries_left == req.max_retry
    &&& q.status == QueueStatus::Initialized
    &&& q.initial_size == 0
    &&& match req.rate_limiter_param {
        Some(p) => q.rate_limiter matches Some(l) && l@ == limiter_from_limits(
            p.max_request,
            p.max_daily_request,
            p.cooldown,
        ),
        None => q.rate_limiter is None,
    }
}

/// A task manager with one empty queue per request, paired in order with
/// the task request receivers as far as both go; a later request for the
/// same plan replaces an earlier one. The receivers come back beside it,
/// each with the plan of its queue.
pub fn create_sync_task_manager<MT, TR, ME, MF>(
    create_request: &CreateTaskManagerRequest,
    task_sender: MT,
    task_request_receivers: Vec<TR>,
    error_sender: ME,
    failed_task_receiver: MF,
) -> (r: (ConnectedTaskManager<MT, ME, MF>, Vec<(Id, TR)>))
    ensures
        ({
            let reqs = create_request.create_task_queue_requests@;
            let n = if reqs.len() <= task_request_receivers@.len() {
                reqs.len()
            } else {
                task_request_receivers@.len()
            };
            &&& r.1@.len() == n
            &&& forall|i: int|
                0 <= i < n ==> (#[trigger] r.1@[i]).0 == reqs[i].sync_plan_id && r.1@[i].1
                    == task_request_receivers@[i]
            &&& forall|i: int| 0 <= i < n ==> r.0.manager.queues@.contains_key(#[trigger] reqs[i].sync_plan_id)
            &&& forall|id: Id|
                #[trigger] r.0.manager.queues@.contains_key(id) ==> exists|i: int|
                    0 <= i < n && reqs[i].sync_plan_id == id && queue_for_request(reqs[i], r.0.manager.queues@[id])
            &&& r.0.manager.current_state == TaskManagerState::Initialized
            &&& r.0.manager.wf()
            &&& r.0.task_sender == task_sender
            &&& r.0.error_message_channel == error_sender
            &&& r.0.failed_task_channel == failed_task_receiver
        }),
{
    let requests = &create_request.create_task_queue_requests;
    let ghost reqs = requests@;
    let ghost receivers_all = task_request_receivers@;
    let n = if requests.len() <= task_request_receivers.len() {
        requests.len()
    } else {
        task_request_receivers.len()
    };
    let mut receivers = task_request_receivers;
    let mut paired: Vec<(Id, TR)> = Vec::new();
    let mut manager = TaskManager::new(Vec::new());
    assert(manager.queues@ =~= Map::<Id, SyncTaskQueue>::empty());
    let mut i: usize = 0;
    while i < n
        invariant
            i <= n,
            n <= reqs.len(),
            n <= receivers_all.len(),
            reqs == requests@,
            receivers@ == receivers_all.skip(i as int),
            paired@.len() == i,
            forall|j: int|
                0 <= j < i ==> (#[trigger] paired@[j]).0 == reqs[j].sync_plan_id && paired@[j].1 == receivers_all[j],
            manager.wf(),
            manager.current_state == TaskManagerState::Initialized,
            forall|j: int| 0 <= j < i ==> manager.queues@.contains_key(#[trigger] reqs[j].sync_plan_id),
            forall|id: Id|
                #[trigger] manager.queues@.contains_key(id) ==> exists|j: int|
                    0 <= j < i && reqs[j].sync_plan_id == id && queue_for_request(reqs[j], manager.queues@[id]),
        decreases n - i,
    {
        let req = requests[i];
        let queue = match req.rate_limiter_param {
            Some(p) => {
                let limiter = new_web_request_limiter(p.max_request, p.max_daily_request, p.cooldown);
                new_empty_queue(limiter, req.max_retry, req.sync_plan_id)
            },
            None => new_empty_limitless_queue(req.max_retry, req.sync_plan_id),
        };
        assert(queue_for_request(reqs[i as int], queue));
        let ghost before = manager.queues@;
        manager.add_queue(queue);
        let receiver = receivers.remove(0);
        assert(receiver == receivers_all[i as int]);
        paired.push((req.sync_plan_id, receiver));
        proof {
            assert(receivers@ =~= receivers_all.skip(i as int + 1));
            assert forall|id: Id| #[trigger] manager.queues@.contains_key(id) implies exists|j: int|
                0 <= j < i + 1 && reqs[j].sync_plan_id == id && queue_for_request(reqs[j], manager.queues@[id]) by {
                if id == req.sync_plan_id {
                    assert(reqs[i as int].sync_plan_id == id);
                } else {
                    assert(before.contains_key(id));
                }
            }
        }
        i = i + 1;
    }
    (ConnectedTaskManager { manager, task_sender, error_message_channel: error_sender, failed_task_channel: failed_task_receiver }, paired)
}

} // verus!
