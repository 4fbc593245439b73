//! The task manager: one queue per sync plan, from which tasks are handed
//! out on request, and to which failed tasks come back for another try.
//!
//! The channels the manager talks over, and the loops that wait on them, are
//! run outside; this module decides what each request, result and failure
//! does to the queues.

use vstd::prelude::*;
use std::collections::HashMap;
use vstd::std_specs::iter::IteratorSpec;
use vstd::string::StringExecFns;
use crate::ids::{Id, new_id};
use crate::rate_limiter::{
    WebRequestRateLimiter, TimerError, RateLimiterInstance, create_rate_limiter_by_rate_quota,
    limiter_from_limits, LimiterCounters, MAX_DELTA_SECONDS,
};
use crate::task::{SyncTask, SyncPlan, GetTaskRequest};
use crate::task_queue::{
    SyncTaskQueue, QueueError, QueueStatus, QueueId, same_task, new_empty_queue,
    new_empty_limitless_queue,
};

verus! {

broadcast use vstd::std_specs::hash::group_hash_axioms;

/// Where the task manager is in its life.
#[derive(Debug, Clone, Copy, PartialEq, Eq, Structural)]
pub enum TaskManagerState {
    Initialized,
    Running,
    Stopped,
}

impl Default for TaskManagerState {
    fn default() -> (r: Self)
        ensures
            r == TaskManagerState::Initialized,
    {
        TaskManagerState::Initialized
    }
}

/// What went wrong in the task manager.
#[derive(Debug, Clone)]
pub enum TaskManagerError {
    /// A queue is rate limited: whether its countdown was started, and the
    /// seconds left.
    RateLimited(bool, i64),
    DailyLimitExceeded,
    RateLimiterInitializationError(TimerError),
    BatchPlanInsertionFailed(String),
    QueueNotFound,
    MissingRateLimitParam,
    RateLimiterNotSet(String),
    OtherError(String),
}

/// How far a plan's queue is in handing out its tasks.
#[derive(Debug, Clone, Copy, PartialEq, Eq, Structural)]
pub struct TaskSendingProgress {
    pub sync_plan_id: Id,
    pub task_sent: usize,
    pub total_tasks: usize,
}

impl TaskSendingProgress {
    /// A progress report.
    pub fn new(sync_plan_id: Id, task_sent: usize, total_tasks: usize) -> (r: TaskSendingProgress)
        ensures
            r == (TaskSendingProgress { sync_plan_id, task_sent, total_tasks }),
    {
        TaskSendingProgress { sync_plan_id, task_sent, total_tasks }
    }
}

/// What the manager does with the outcome of a task request to a queue.
#[derive(Debug)]
pub enum FetchAction {
    /// The task goes out to the workers.
    SendTask(SyncTask),
    /// Report this error.
    ReportError(TaskManagerError),
    /// Nothing to send or report.
    Nothing,
}

/// The message of a batch that could not be loaded.
pub open spec fn batch_failed_message() -> Seq<char> {
    "Batch task insertion failed due to inconsistencies between rate limit param and actual passed rate limiter type."@
}

/// The message of a plan with a rate quota loaded without a limiter.
pub open spec fn limiter_not_set_message() -> Seq<char> {
    "Missing rate limiter while expecting to pass one because you have specified rate quota!"@
}

/// The map of queues made by inserting `qs` in order, each under its plan id.
pub open spec fn queue_map(qs: Seq<SyncTaskQueue>) -> Map<Id, SyncTaskQueue>
    decreases qs.len(),
{
    if qs.len() == 0 {
        Map::empty()
    } else {
        queue_map(qs.drop_last()).insert(qs.last().sync_plan_id, qs.last())
    }
}

/// Every queue but the one of `id` is the same in `a` and `b`, and both hold
/// the same plans.
pub open spec fn others_same(a: Map<Id, SyncTaskQueue>, b: Map<Id, SyncTaskQueue>, id: Id) -> bool {
    &&& a.dom() == b.dom()
    &&& forall|k: Id| #[trigger] a.contains_key(k) && k != id ==> b[k] == a[k]
}

/// Queue `b` is queue `a` with its tasks and status replaced.
pub open spec fn same_queue_but_tasks_status(a: SyncTaskQueue, b: SyncTaskQueue) -> bool {
    &&& b.sync_plan_id == a.sync_plan_id
    &&& b.max_retry == a.max_retry
    &&& b.retries_left == a.retries_left
    &&& b.initial_size == a.initial_size
    &&& b.limiter_view() == a.limiter_view()
}

/// The queue a plan's tasks are loaded into: the copies of the plan's tasks,
/// in order, as a fresh queue of the plan.
pub open spec fn loaded_queue(q: SyncTaskQueue, plan: SyncPlan, max_retry: Option<u32>) -> bool {
    &&& q.sync_plan_id == plan.id
    &&& q.status == QueueStatus::Initialized
    &&& q.max_retry == max_retry
    &&& q.retries_left == max_retry
    &&& q.tasks@.len() == plan.tasks@.len()
    &&& forall|i: int| 0 <= i < plan.tasks@.len() ==> same_task(#[trigger] q.tasks@[i], plan.tasks@[i])
    &&& q.initial_size == plan.tasks@.len()
}

/// A step of the listening loop that finishes no queue: the plans stay,
/// and a queue finished after it was finished before it.
pub open spec fn no_new_finish(before: Map<Id, SyncTaskQueue>, after: Map<Id, SyncTaskQueue>) -> bool {
    &&& after.dom() == before.dom()
    &&& forall|id: Id| #[trigger] after.contains_key(id) && after[id].status == QueueStatus::Finished
        ==> before[id].status == QueueStatus::Finished
}

/// A step that may finish the queue of `id` and no other: the plans stay,
/// and any other queue finished after it was finished before it.
pub open spec fn only_finishes(before: Map<Id, SyncTaskQueue>, after: Map<Id, SyncTaskQueue>, id: Id) -> bool {
    &&& after.dom() == before.dom()
    &&& forall|k: Id| #[trigger] after.contains_key(k) && k != id && after[k].status == QueueStatus::Finished
        ==> before[k].status == QueueStatus::Finished
}

/// A step that drops finished queues only, and leaves the others as they
/// were.
pub open spec fn drops_finished(before: Map<Id, SyncTaskQueue>, after: Map<Id, SyncTaskQueue>) -> bool {
    &&& forall|id: Id| #[trigger] after.contains_key(id) ==> before.contains_key(id) && after[id] == before[id]
    &&& forall|id: Id| #[trigger] before.contains_key(id) && !after.contains_key(id) ==> before[id].status
        == QueueStatus::Finished
}

/// What a step of the listening loop was: serving a queue (a fetch, a task
/// put back, a failed task returned), a fetch that found the queue of `id`
/// empty, or dropping the finished queues.
#[derive(Debug, Clone, Copy, PartialEq, Eq, Structural)]
pub enum ListenEvent {
    Serve,
    EmptyQueue(Id),
    DropFinished,
}

/// What a step of the listening loop does to the queues.
pub open spec fn listen_step(before: Map<Id, SyncTaskQueue>, event: ListenEvent, after: Map<Id, SyncTaskQueue>) -> bool {
    match event {
        ListenEvent::Serve => no_new_finish(before, after),
        ListenEvent::EmptyQueue(id) => only_finishes(before, after, id),
        ListenEvent::DropFinished => drops_finished(before, after),
    }
}

/// The retry limit a plan's queue takes: its rate quota's, when it has one.
pub open spec fn quota_retry(plan: SyncPlan) -> Option<u32> {
    match plan.sync_config.sync_rate_quota {
        Some(q) => Some(q.max_retry),
        None => None,
    }
}

/// The view of an optional limiter.
pub open spec fn limiter_counters(limiter: Option<WebRequestRateLimiter>) -> Option<LimiterCounters> {
    match limiter {
        Some(l) => Some(l@),
        None => None,
    }
}

/// Queue `q` holds plan `plan`, loaded with limiter `limiter`.
pub open spec fn plan_loaded(q: SyncTaskQueue, plan: SyncPlan, limiter: Option<WebRequestRateLimiter>) -> bool {
    &&& loaded_queue(q, plan, quota_retry(plan))
    &&& q.limiter_view() == limiter_counters(limiter)
}

/// One of the first `k` plans has id `id`.
pub open spec fn among_first(plans: Seq<SyncPlan>, k: int, id: Id) -> bool {
    exists|i: int| 0 <= i < k && #[trigger] plans[i].id == id
}

/// No plan after the `i`-th and before the `k`-th has its id.
pub open spec fn last_of_first(plans: Seq<SyncPlan>, k: int, i: int) -> bool {
    forall|j: int| i < j < k ==> #[trigger] plans[j].id != plans[i].id
}

/// The queues `after` are `before` with the first `k` plans loaded, each
/// with its limiter, a later plan of the same id in place of an earlier
/// one; the queues of other plans stay as they were.
pub open spec fn batch_loaded(
    before: Map<Id, SyncTaskQueue>,
    after: Map<Id, SyncTaskQueue>,
    plans: Seq<SyncPlan>,
    limiters: Seq<Option<WebRequestRateLimiter>>,
    k: int,
) -> bool {
    &&& forall|id: Id| #[trigger] after.contains_key(id) <==> (before.contains_key(id) || among_first(plans, k, id))
    &&& forall|id: Id| #[trigger] before.contains_key(id) && !among_first(plans, k, id) ==> after[id] == before[id]
    &&& forall|i: int| 0 <= i < k && last_of_first(plans, k, i) ==> #[trigger] plan_loaded(
        after[plans[i].id],
        plans[i],
        limiters[i],
    )
}

/// The task manager's queues, one per plan.
pub struct TaskManager {
    pub queues: HashMap<QueueId, SyncTaskQueue>,
    pub current_state: TaskManagerState,
}

impl TaskManager {
    /// The manager's invariant: each queue sits under its plan's id and keeps
    /// its own invariant.
    pub open spec fn wf(&self) -> bool {
        forall|id: Id| #[trigger] self.queues@.contains_key(id) ==> self.queues@[id].sync_plan_id == id
            && self.queues@[id].wf()
    }

    /// A manager of the given queues, each under its plan's id (a later queue
    /// of the same plan replaces an earlier one), not yet running.
    pub fn new(task_queues: Vec<SyncTaskQueue>) -> (r: TaskManager)
        requires
            forall|i: int| 0 <= i < task_queues@.len() ==> (#[trigger] task_queues@[i]).wf(),
        ensures
            r.queues@ == queue_map(task_queues@),
            r.current_state == TaskManagerState::Initialized,
            r.wf(),
    {
        let mut queues: Vec<SyncTaskQueue> = task_queues;
        let total = queues.len();
        let ghost all = queues@;
        let mut map: HashMap<QueueId, SyncTaskQueue> = HashMap::new();
        let mut n: usize = 0;
        while queues.len() > 0
            invariant
                all == all.take(n as int) + queues@,
                n + queues@.len() == all.len(),
                all.len() == total,
                map@ == queue_map(all.take(n as int)),
                forall|i: int| 0 <= i < all.len() ==> (#[trigger] all[i]).wf(),
                forall|id: Id| #[trigger] map@.contains_key(id) ==> map@[id].sync_plan_id == id
                    && map@[id].wf(),
            decreases queues.len(),
        {
            let q = queues.remove(0);
            proof {
                assert(all[n as int] == q);
                assert(all.take(n as int + 1).drop_last() =~= all.take(n as int));
                assert(all.take(n as int + 1).last() == q);
            }
            let id = q.sync_plan_id;
            map.insert(id, q);
            n = n + 1;
            assert(all =~= all.take(n as int) + queues@);
        }
        assert(all.take(n as int) =~= all);
        TaskManager { queues: map, current_state: TaskManagerState::default() }
    }

    /// The ids of all queues, each once.
    pub fn queue_ids(&self) -> (ids: Vec<QueueId>)
        ensures
            ids@.no_duplicates(),
            ids@.to_set() == self.queues@.dom(),
    {
        let mut ids: Vec<QueueId> = Vec::new();
        let ghost keys = vstd::std_specs::hash::spec_keys_iter(&self.queues).remaining();
        for k in it: self.queues.keys()
            invariant
                it.seq() == keys,
                ids@ == it.seq().take(it.index() as int).unref(),
        {
            ids.push(*k);
            assert(ids@ =~= it.seq().take(it.index() as int + 1).unref());
        }
        assert(keys.take(keys.len() as int) =~= keys);
        ids
    }

    /// Adds a queue under its plan's id, replacing the plan's old queue.
    pub fn add_queue(&mut self, task_queue: SyncTaskQueue)
        requires
            old(self).wf(),
            task_queue.wf(),
        ensures
            final(self).wf(),
            final(self).queues@ == old(self).queues@.insert(task_queue.sync_plan_id, task_queue),
            final(self).current_state == old(self).current_state,
    {
        let id = task_queue.sync_plan_id;
        self.queues.insert(id, task_queue);
    }

    /// Appends tasks, in order, to the queue of `queue_id`, when there is one.
    pub fn add_tasks_to_queue(&mut self, queue_id: QueueId, tasks: Vec<SyncTask>)
        requires
            old(self).wf(),
        ensures
            final(self).wf(),
            final(self).current_state == old(self).current_state,
            !old(self).queues@.contains_key(queue_id) ==> final(self).queues@ == old(self).queues@,
            old(self).queues@.contains_key(queue_id) ==> {
                let q0 = old(self).queues@[queue_id];
                let q1 = final(self).queues@[queue_id];
                &&& others_same(old(self).queues@, final(self).queues@, queue_id)
                &&& q1.tasks@ == q0.tasks@ + tasks@
                &&& q1.initial_size == (if tasks@.len() > 0 && q0.tasks@.len() + tasks@.len()
                    > q0.initial_size {
                    (q0.tasks@.len() + tasks@.len()) as usize
                } else {
                    q0.initial_size
                })
                &&& q1.status == q0.status
                &&& q1.sync_plan_id == q0.sync_plan_id
                &&& q1.max_retry == q0.max_retry
                &&& q1.retries_left == q0.retries_left
                &&& q1.limiter_view() == q0.limiter_view()
            },
    {
        match self.queues.remove(&queue_id) {
            None => {},
            Some(q) => {
                let mut q = q;
                let ghost q0 = q;
                let mut tasks = tasks;
                let total = tasks.len();
                let ghost all = tasks@;
                let mut n: usize = 0;
                while tasks.len() > 0
                    invariant
                        all == all.take(n as int) + tasks@,
                        n + tasks@.len() == all.len(),
                        all.len() == total,
                        q.tasks@ == q0.tasks@ + all.take(n as int),
                        q.initial_size == (if n > 0 && q0.tasks@.len() + n > q0.initial_size {
                            (q0.tasks@.len() + n) as usize
                        } else {
                            q0.initial_size
                        }),
                        q.status == q0.status,
                        q.sync_plan_id == q0.sync_plan_id,
                        q.max_retry == q0.max_retry,
                        q.retries_left == q0.retries_left,
                        q.limiter_view() == q0.limiter_view(),
                        q.wf() == q0.wf(),
                    decreases tasks.len(),
                {
                    let t = tasks.remove(0);
                    assert(all[n as int] == t);
                    q.push_back(t);
                    assert(all.take(n as int + 1) =~= all.take(n as int).push(t));
                    n = n + 1;
                    assert(all =~= all.take(n as int) + tasks@);
                }
                assert(all.take(n as int) =~= all);
                self.queues.insert(queue_id, q);
            },
        }
    }

    /// The manager is running.
    pub fn is_running(&self) -> (r: bool)
        ensures
            r == (self.current_state == TaskManagerState::Running),
    {
        self.current_state == TaskManagerState::Running
    }

    /// Every queue is empty.
    pub fn all_queues_are_empty(&self) -> (r: bool)
        ensures
            r == (forall|id: Id| #[trigger] self.queues@.contains_key(id) ==> self.queues@[id].tasks@.len()
                == 0),
    {
        let ids = self.queue_ids();
        let mut i: usize = 0;
        while i < ids.len()
            invariant
                i <= ids@.len(),
                ids@.to_set() == self.queues@.dom(),
                forall|j: int| 0 <= j < i ==> self.queues@[#[trigger] ids@[j]].tasks@.len() == 0,
            decreases ids@.len() - i,
        {
            let q = self.queues.get(&ids[i]).unwrap();
            if q.tasks.len() != 0 {
                assert(ids@.to_set().contains(ids@[i as int]));
                return false;
            }
            i = i + 1;
        }
        assert forall|id: Id| #[trigger] self.queues@.contains_key(id) implies self.queues@[id].tasks@.len()
            == 0 by {
            assert(ids@.to_set().contains(id));
            let j = choose|j: int| 0 <= j < ids@.len() && ids@[j] == id;
        }
        true
    }

    /// Stops every queue and hands back, per plan, the tasks it still held.
    pub fn stop_sending_all_tasks(&mut self) -> (r: Result<HashMap<Id, Vec<SyncTask>>, TaskManagerError>)
        requires
            old(self).wf(),
        ensures
            final(self).wf(),
            final(self).current_state == old(self).current_state,
            final(self).queues@.dom() == old(self).queues@.dom(),
            r matches Ok(unsent) && unsent@.dom() == old(self).queues@.dom(),
            forall|id: Id| #[trigger] old(self).queues@.contains_key(id) ==> {
                &&& final(self).queues@[id].tasks@.len() == 0
                &&& final(self).queues@[id].status == QueueStatus::Stopped
                &&& same_queue_but_tasks_status(old(self).queues@[id], final(self).queues@[id])
                &&& (r matches Ok(unsent) && unsent@[id]@ == old(self).queues@[id].tasks@)
            },
    {
        let ids = self.queue_ids();
        let mut unsent_tasks: HashMap<Id, Vec<SyncTask>> = HashMap::new();
        let mut i: usize = 0;
        while i < ids.len()
            invariant
                i <= ids@.len(),
                ids@.no_duplicates(),
                ids@.to_set() == old(self).queues@.dom(),
                self.queues@.dom() == old(self).queues@.dom(),
                self.current_state == old(self).current_state,
                self.wf(),
                unsent_tasks@.dom() == ids@.take(i as int).to_set(),
                forall|j: int| 0 <= j < i ==> {
                    let id = #[trigger] ids@[j];
                    &&& self.queues@[id].tasks@.len() == 0
                    &&& self.queues@[id].status == QueueStatus::Stopped
                    &&& same_queue_but_tasks_status(old(self).queues@[id], self.queues@[id])
                    &&& unsent_tasks@[id]@ == old(self).queues@[id].tasks@
                },
                forall|j: int| i <= j < ids@.len() ==> self.queues@[#[trigger] ids@[j]] == old(
                    self,
                ).queues@[ids@[j]],
            decreases ids@.len() - i,
        {
            let id = ids[i];
            assert(ids@.to_set().contains(id));
            let ghost before = self.queues@;
            let mut q = self.queues.remove(&id).unwrap();
            let remaining_tasks = q.drain_all();
            let plan_id = q.sync_plan_id;
            unsent_tasks.insert(plan_id, remaining_tasks);
            self.queues.insert(id, q);
            proof {
                assert forall|j: int| i < j < ids@.len() implies self.queues@[#[trigger] ids@[j]]
                    == old(self).queues@[ids@[j]] by {
                    assert(ids@[j] != id);
                }
                assert forall|j: int| 0 <= j < i implies {
                    let k = #[trigger] ids@[j];
                    &&& self.queues@[k] == before[k]
                    &&& unsent_tasks@[k] == unsent_tasks@[k]
                } by {
                    assert(ids@[j] != id);
                }
                assert(unsent_tasks@.dom() =~= ids@.take(i as int + 1).to_set()) by {
                    assert(ids@.take(i as int + 1) =~= ids@.take(i as int).push(id));
                    broadcast use vstd::seq_lib::group_seq_properties;
                }
            }
            i = i + 1;
        }
        proof {
            assert(ids@.take(ids@.len() as int) =~= ids@);
            assert forall|id: Id| #[trigger] old(self).queues@.contains_key(id) implies {
                &&& self.queues@[id].tasks@.len() == 0
                &&& self.queues@[id].status == QueueStatus::Stopped
                &&& same_queue_but_tasks_status(old(self).queues@[id], self.queues@[id])
                &&& unsent_tasks@[id]@ == old(self).queues@[id].tasks@
            } by {
                assert(ids@.to_set().contains(id));
                let j = choose|j: int| 0 <= j < ids@.len() && ids@[j] == id;
            }
        }
        Ok(unsent_tasks)
    }

    /// Copies a plan's tasks, in order, to the back of an empty queue.
    fn load_tasks(queue: &mut SyncTaskQueue, plan: &SyncPlan)
        requires
            old(queue).tasks@.len() == 0,
            old(queue).initial_size == 0,
        ensures
            final(queue).tasks@.len() == plan.tasks@.len(),
            forall|i: int|
                0 <= i < plan.tasks@.len() ==> same_task(#[trigger] final(queue).tasks@[i], plan.tasks@[i]),
            final(queue).initial_size == plan.tasks@.len(),
            final(queue).sync_plan_id == old(queue).sync_plan_id,
            final(queue).status == old(queue).status,
            final(queue).max_retry == old(queue).max_retry,
            final(queue).retries_left == old(queue).retries_left,
            final(queue).limiter_view() == old(queue).limiter_view(),
            final(queue).rate_limiter is Some == old(queue).rate_limiter is Some,
    {
        let mut i: usize = 0;
        while i < plan.tasks.len()
            invariant
                i <= plan.tasks@.len(),
                queue.tasks@.len() == i,
                queue.initial_size == i,
                forall|j: int| 0 <= j < i ==> same_task(#[trigger] queue.tasks@[j], plan.tasks@[j]),
                queue.sync_plan_id == old(queue).sync_plan_id,
                queue.status == old(queue).status,
                queue.max_retry == old(queue).max_retry,
                queue.retries_left == old(queue).retries_left,
                queue.limiter_view() == old(queue).limiter_view(),
                queue.rate_limiter is Some == old(queue).rate_limiter is Some,
            decreases plan.tasks@.len() - i,
        {
            let ghost before = queue.tasks@;
            let t = plan.tasks[i].clone();
            queue.push_back(t);
            assert(same_task(queue.tasks@[i as int], plan.tasks@[i as int]));
            assert forall|j: int| 0 <= j < i implies #[trigger] queue.tasks@[j] == before[j] by {}
            i = i + 1;
        }
    }

    /// Loads a plan with the given limiter into a new queue, in place of the
    /// plan's old queue. A limiter needs the plan's rate quota, whose retry
    /// limit the queue takes; a plan with a rate quota needs a limiter.
    pub fn load_sync_plan(&mut self, sync_plan: &SyncPlan, rate_limiter: Option<WebRequestRateLimiter>) -> (r:
        Result<(), TaskManagerError>)
        requires
            old(self).wf(),
            rate_limiter matches Some(l) ==> l@.wf(),
        ensures
            final(self).wf(),
            final(self).current_state == old(self).current_state,
            rate_limiter is Some && sync_plan.sync_config.sync_rate_quota is None ==> (r matches Err(
                TaskManagerError::MissingRateLimitParam,
            ) && final(self).queues@ == old(self).queues@),
            rate_limiter is None && sync_plan.sync_config.sync_rate_quota is Some ==> (r matches Err(
                TaskManagerError::RateLimiterNotSet(m),
            ) && m@ == limiter_not_set_message() && final(self).queues@ == old(self).queues@),
            (rate_limiter is Some) == (sync_plan.sync_config.sync_rate_quota is Some) ==> {
                &&& r is Ok
                &&& final(self).queues@ == old(self).queues@.insert(sync_plan.id, final(self).queues@[sync_plan.id])
                &&& others_same(old(self).queues@.insert(sync_plan.id, final(self).queues@[sync_plan.id]), final(self).queues@, sync_plan.id)
                &&& final(self).queues@.contains_key(sync_plan.id)
                &&& loaded_queue(
                    final(self).queues@[sync_plan.id],
                    *sync_plan,
                    match sync_plan.sync_config.sync_rate_quota {
                        Some(q) => Some(q.max_retry),
                        None => None,
                    },
                )
                &&& final(self).queues@[sync_plan.id].limiter_view() == (match rate_limiter {
                    Some(l) => Some(l@),
                    None => None,
                })
            },
    {
        let plan_id = sync_plan.id;
        match rate_limiter {
            Some(rate_limiter) => {
                let quota = match sync_plan.sync_config.sync_rate_quota {
                    Some(q) => q,
                    None => {
                        return Err(TaskManagerError::MissingRateLimitParam);
                    },
                };
                let mut queue = new_empty_queue(rate_limiter, Some(quota.max_retry), plan_id);
                Self::load_tasks(&mut queue, sync_plan);
                self.add_queue(queue);
                Ok(())
            },
            None => match sync_plan.sync_config.sync_rate_quota {
                None => {
                    let mut queue = new_empty_limitless_queue(None, plan_id);
                    Self::load_tasks(&mut queue, sync_plan);
                    self.add_queue(queue);
                    Ok(())
                },
                Some(_) => Err(
                    TaskManagerError::RateLimiterNotSet(
                        String::from_str(
                            "Missing rate limiter while expecting to pass one because you have specified rate quota!",
                        ),
                    ),
                ),
            },
        }
    }

    /// Loads a plan, with the limiter its rate quota asks for when it has one.
    pub fn load_sync_plan_with_limiter(&mut self, sync_plan: &SyncPlan) -> (r: Result<(), TaskManagerError>)
        requires
            old(self).wf(),
        ensures
            r is Ok,
            final(self).wf(),
            final(self).current_state == old(self).current_state,
            others_same(old(self).queues@.insert(sync_plan.id, final(self).queues@[sync_plan.id]), final(self).queues@, sync_plan.id),
            final(self).queues@.contains_key(sync_plan.id),
            loaded_queue(
                final(self).queues@[sync_plan.id],
                *sync_plan,
                match sync_plan.sync_config.sync_rate_quota {
                    Some(q) => Some(q.max_retry),
                    None => None,
                },
            ),
            final(self).queues@[sync_plan.id].limiter_view() == (match sync_plan.sync_config.sync_rate_quota {
                Some(q) => Some(limiter_from_limits(q.max_line_per_request, Some(q.daily_limit), Some(q.cooldown_seconds))),
                None => None,
            }),
    {
        match sync_plan.sync_config.sync_rate_quota {
            Some(quota) => {
                let rate_limiter_instance = create_rate_limiter_by_rate_quota(&quota);
                match rate_limiter_instance {
                    RateLimiterInstance::WebLimiter(limiter) => {
                        proof {
                            assert(limiter@.wf());
                        }
                        self.load_sync_plan(sync_plan, Some(limiter))
                    },
                }
            },
            None => self.load_sync_plan(sync_plan, None),
        }
    }

    /// Loads plans with their limiters, pairwise, as far as the shorter list
    /// goes, each as `load_sync_plan` does; the first plan that cannot be
    /// loaded stops the batch, and the plans before it stay loaded.
    pub fn load_sync_plans(&mut self, sync_plans: &Vec<SyncPlan>, rate_limiters: Vec<Option<WebRequestRateLimiter>>) -> (r: Result<(), TaskManagerError>)
        requires
            old(self).wf(),
            forall|i: int| 0 <= i < rate_limiters@.len() ==> (#[trigger] rate_limiters@[i] matches Some(l) ==> l@.wf()),
        ensures
            final(self).wf(),
            final(self).current_state == old(self).current_state,
            r is Ok <==> (forall|i: int| 0 <= i < sync_plans@.len() && i < rate_limiters@.len() ==>
                (#[trigger] rate_limiters@[i] is Some) == (sync_plans@[i].sync_config.sync_rate_quota is Some)),
            r matches Err(e) ==> (e matches TaskManagerError::BatchPlanInsertionFailed(m) && m@ == batch_failed_message()),
            r is Ok ==> batch_loaded(
                old(self).queues@,
                final(self).queues@,
                sync_plans@,
                rate_limiters@,
                if sync_plans@.len() < rate_limiters@.len() {
                    sync_plans@.len() as int
                } else {
                    rate_limiters@.len() as int
                },
            ),
            r is Err ==> exists|f: int|
                0 <= f < sync_plans@.len() && f < rate_limiters@.len() && (#[trigger] rate_limiters@[f] is Some)
                    != (sync_plans@[f].sync_config.sync_rate_quota is Some) && batch_loaded(
                    old(self).queues@,
                    final(self).queues@,
                    sync_plans@,
                    rate_limiters@,
                    f,
                ),
    {
        let ghost limiters = rate_limiters@;
        let mut pending = rate_limiters;
        let n_limiters = pending.len();
        let mut i: usize = 0;
        while i < sync_plans.len() && i < n_limiters
            invariant
                n_limiters == limiters.len(),
                limiters == rate_limiters@,
                i <= sync_plans@.len(),
                i <= n_limiters,
                pending@ == limiters.subrange(i as int, limiters.len() as int),
                forall|j: int| 0 <= j < limiters.len() ==> (#[trigger] limiters[j] matches Some(l) ==> l@.wf()),
                self.wf(),
                self.current_state == old(self).current_state,
                forall|j: int| 0 <= j < i ==> (#[trigger] limiters[j] is Some) == (sync_plans@[j].sync_config.sync_rate_quota is Some),
                batch_loaded(old(self).queues@, self.queues@, sync_plans@, limiters, i as int),
            decreases sync_plans@.len() - i,
        {
            let limiter = pending.remove(0);
            assert(limiter == limiters[i as int]);
            let ghost before = self.queues@;
            let result = self.load_sync_plan(&sync_plans[i], limiter);
            if result.is_err() {
                assert(!((rate_limiters@[i as int] is Some) == (sync_plans@[i as int].sync_config.sync_rate_quota is Some)));
                assert(self.queues@ == before);
                assert((rate_limiters@[i as int] is Some) != (sync_plans@[i as int].sync_config.sync_rate_quota is Some));
                return Err(
                    TaskManagerError::BatchPlanInsertionFailed(
                        String::from_str(
                            "Batch task insertion failed due to inconsistencies between rate limit param and actual passed rate limiter type.",
                        ),
                    ),
                );
            }
            proof {
                Self::lemma_batch_step(old(self).queues@, before, self.queues@, sync_plans@, limiters, i as int);
            }
            i = i + 1;
            assert(pending@ =~= limiters.subrange(i as int, limiters.len() as int));
        }
        Ok(())
    }

    /// Loading the `k`-th plan after the first `k` extends the batch to
    /// `k + 1` plans.
    proof fn lemma_batch_step(
        start: Map<Id, SyncTaskQueue>,
        before: Map<Id, SyncTaskQueue>,
        after: Map<Id, SyncTaskQueue>,
        plans: Seq<SyncPlan>,
        limiters: Seq<Option<WebRequestRateLimiter>>,
        k: int,
    )
        requires
            0 <= k < plans.len(),
            k < limiters.len(),
            batch_loaded(start, before, plans, limiters, k),
            after == before.insert(plans[k].id, after[plans[k].id]),
            plan_loaded(after[plans[k].id], plans[k], limiters[k]),
        ensures
            batch_loaded(start, after, plans, limiters, k + 1),
    {
        let id = plans[k].id;
        assert(among_first(plans, k + 1, id)) by {
            assert(0 <= k < k + 1 && plans[k].id == id);
        }
        assert forall|x: Id| among_first(plans, k + 1, x) <==> (among_first(plans, k, x) || x == id) by {
            if among_first(plans, k + 1, x) {
                let i = choose|i: int| 0 <= i < k + 1 && #[trigger] plans[i].id == x;
                if i < k {
                    assert(among_first(plans, k, x));
                }
            }
            if among_first(plans, k, x) {
                let i = choose|i: int| 0 <= i < k && #[trigger] plans[i].id == x;
                assert(0 <= i < k + 1 && plans[i].id == x);
            }
        }
        assert forall|i: int| 0 <= i < k + 1 && last_of_first(plans, k + 1, i) implies #[trigger] plan_loaded(
            after[plans[i].id],
            plans[i],
            limiters[i],
        ) by {
            if i < k {
                assert(plans[k].id != plans[i].id);
                assert(last_of_first(plans, k, i));
            }
        }
    }

    /// Stops the plan's queue, dropping its tasks; the queue stays.
    pub fn stop_sending_task(&mut self, sync_plan_id: Id) -> (r: Result<(), TaskManagerError>)
        requires
            old(self).wf(),
        ensures
            final(self).wf(),
            final(self).current_state == old(self).current_state,
            !old(self).queues@.contains_key(sync_plan_id) ==> (r matches Err(TaskManagerError::QueueNotFound)
                && final(self).queues@ == old(self).queues@),
            old(self).queues@.contains_key(sync_plan_id) ==> {
                &&& r is Ok
                &&& others_same(old(self).queues@, final(self).queues@, sync_plan_id)
                &&& final(self).queues@[sync_plan_id].tasks@.len() == 0
                &&& final(self).queues@[sync_plan_id].status == QueueStatus::Stopped
                &&& same_queue_but_tasks_status(old(self).queues@[sync_plan_id], final(self).queues@[sync_plan_id])
            },
    {
        match self.queues.remove(&sync_plan_id) {
            Some(q) => {
                let mut q = q;
                let _ = q.stop();
                self.queues.insert(sync_plan_id, q);
                Ok(())
            },
            None => Err(TaskManagerError::QueueNotFound),
        }
    }

    /// Stops the plan's queue, hands back its tasks in order and removes
    /// the plan; the other plans stay as they were.
    pub fn stop_and_remove_sync_plan(&mut self, sync_plan_id: Id) -> (r: Result<Vec<SyncTask>, TaskManagerError>)
        requires
            old(self).wf(),
        ensures
            final(self).wf(),
            final(self).current_state == old(self).current_state,
            !old(self).queues@.contains_key(sync_plan_id) ==> (r matches Err(TaskManagerError::QueueNotFound)
                && final(self).queues@ == old(self).queues@),
            old(self).queues@.contains_key(sync_plan_id) ==> {
                &&& r matches Ok(unsent) && unsent@ == old(self).queues@[sync_plan_id].tasks@
                &&& final(self).queues@ == old(self).queues@.remove(sync_plan_id)
            },
            !final(self).queues@.contains_key(sync_plan_id),
    {
        match self.queues.remove(&sync_plan_id) {
            Some(q) => {
                let mut q = q;
                let unsent_task = q.drain_all();
                Ok(unsent_task)
            },
            None => Err(TaskManagerError::QueueNotFound),
        }
    }

    /// Pauses the plan's queue.
    pub fn pause_sending_task(&mut self, sync_plan_id: Id) -> (r: Result<(), TaskManagerError>)
        requires
            old(self).wf(),
        ensures
            final(self).wf(),
            final(self).current_state == old(self).current_state,
            !old(self).queues@.contains_key(sync_plan_id) ==> (r matches Err(TaskManagerError::QueueNotFound)
                && final(self).queues@ == old(self).queues@),
            old(self).queues@.contains_key(sync_plan_id) ==> {
                &&& r is Ok
                &&& others_same(old(self).queues@, final(self).queues@, sync_plan_id)
                &&& final(self).queues@[sync_plan_id].tasks@ == old(self).queues@[sync_plan_id].tasks@
                &&& final(self).queues@[sync_plan_id].status == QueueStatus::Paused
                &&& same_queue_but_tasks_status(old(self).queues@[sync_plan_id], final(self).queues@[sync_plan_id])
            },
    {
        match self.queues.remove(&sync_plan_id) {
            Some(q) => {
                let mut q = q;
                q.pause();
                self.queues.insert(sync_plan_id, q);
                Ok(())
            },
            None => Err(TaskManagerError::QueueNotFound),
        }
    }

    /// Resumes the plan's queue.
    pub fn resume_sending_tasks(&mut self, sync_plan_id: Id) -> (r: Result<(), TaskManagerError>)
        requires
            old(self).wf(),
        ensures
            final(self).wf(),
            final(self).current_state == old(self).current_state,
            !old(self).queues@.contains_key(sync_plan_id) ==> (r matches Err(TaskManagerError::QueueNotFound)
                && final(self).queues@ == old(self).queues@),
            old(self).queues@.contains_key(sync_plan_id) ==> {
                &&& r is Ok
                &&& others_same(old(self).queues@, final(self).queues@, sync_plan_id)
                &&& final(self).queues@[sync_plan_id].tasks@ == old(self).queues@[sync_plan_id].tasks@
                &&& final(self).queues@[sync_plan_id].status == QueueStatus::SendingTasks
                &&& same_queue_but_tasks_status(old(self).queues@[sync_plan_id], final(self).queues@[sync_plan_id])
            },
    {
        match self.queues.remove(&sync_plan_id) {
            Some(q) => {
                let mut q = q;
                q.resume();
                self.queues.insert(sync_plan_id, q);
                Ok(())
            },
            None => Err(TaskManagerError::QueueNotFound),
        }
    }

    /// The progress of a queue: the tasks sent (its initial size less the
    /// tasks it holds) out of its initial size.
    pub open spec fn progress_of(q: SyncTaskQueue) -> TaskSendingProgress {
        TaskSendingProgress {
            sync_plan_id: q.sync_plan_id,
            task_sent: (q.initial_size - q.tasks@.len()) as usize,
            total_tasks: q.initial_size,
        }
    }

    /// No queue holds more tasks than its initial size.
    pub open spec fn sizes_consistent(&self) -> bool {
        forall|id: Id| #[trigger] self.queues@.contains_key(id) ==> self.queues@[id].tasks@.len()
            <= self.queues@[id].initial_size
    }

    /// How far the plan's queue is.
    pub fn report_task_sending_progress(&self, sync_plan_id: Id) -> (r: Result<TaskSendingProgress, TaskManagerError>)
        requires
            self.wf(),
            self.queues@.contains_key(sync_plan_id) ==> self.queues@[sync_plan_id].tasks@.len()
                <= self.queues@[sync_plan_id].initial_size,
        ensures
            !self.queues@.contains_key(sync_plan_id) ==> r matches Err(TaskManagerError::QueueNotFound),
            self.queues@.contains_key(sync_plan_id) ==> r == Ok::<TaskSendingProgress, TaskManagerError>(
                Self::progress_of(self.queues@[sync_plan_id]),
            ),
    {
        match self.queues.get(&sync_plan_id) {
            Some(queue) => {
                let n_task_sent = queue.initial_size - queue.len();
                let total_tasks = queue.initial_size;
                Ok(TaskSendingProgress::new(queue.sync_plan_id, n_task_sent, total_tasks))
            },
            None => Err(TaskManagerError::QueueNotFound),
        }
    }

    /// How far every queue is, one report per plan.
    pub fn report_all_task_sending_progress(&self) -> (r: Result<Vec<TaskSendingProgress>, TaskManagerError>)
        requires
            self.wf(),
            self.sizes_consistent(),
        ensures
            r matches Ok(reports) && {
                &&& reports@.len() == self.queues@.dom().len()
                &&& reports@.map_values(|p: TaskSendingProgress| p.sync_plan_id).to_set() == self.queues@.dom()
                &&& reports@.map_values(|p: TaskSendingProgress| p.sync_plan_id).no_duplicates()
                &&& forall|i: int| 0 <= i < reports@.len() ==> #[trigger] reports@[i] == Self::progress_of(
                    self.queues@[reports@[i].sync_plan_id],
                )
            },
    {
        let ids = self.queue_ids();
        let mut reports: Vec<TaskSendingProgress> = Vec::new();
        let mut i: usize = 0;
        while i < ids.len()
            invariant
                i <= ids@.len(),
                ids@.no_duplicates(),
                ids@.to_set() == self.queues@.dom(),
                self.wf(),
                self.sizes_consistent(),
                reports@.len() == i,
                reports@.map_values(|p: TaskSendingProgress| p.sync_plan_id) == ids@.take(i as int),
                forall|j: int| 0 <= j < i ==> #[trigger] reports@[j] == Self::progress_of(
                    self.queues@[reports@[j].sync_plan_id],
                ),
            decreases ids@.len() - i,
        {
            let id = ids[i];
            assert(ids@.to_set().contains(id));
            let p = self.report_task_sending_progress(id);
            match p {
                Ok(progress) => {
                    reports.push(progress);
                },
                Err(_) => {
                    proof {
                        assert(false);
                    }
                },
            }
            assert(reports@.map_values(|p: TaskSendingProgress| p.sync_plan_id) =~= ids@.take(i as int + 1));
            i = i + 1;
        }
        assert(ids@.take(ids@.len() as int) =~= ids@);
        proof {
            ids@.unique_seq_to_set();
        }
        Ok(reports)
    }

    /// Stops every queue, drops their tasks, and stops the manager.
    pub fn graceful_shutdown(&mut self) -> (r: Result<(), TaskManagerError>)
        requires
            old(self).wf(),
        ensures
            r is Ok,
            final(self).wf(),
            final(self).current_state == TaskManagerState::Stopped,
            final(self).queues@.dom() == old(self).queues@.dom(),
            forall|id: Id| #[trigger] old(self).queues@.contains_key(id) ==> {
                &&& final(self).queues@[id].tasks@.len() == 0
                &&& final(self).queues@[id].status == QueueStatus::Stopped
                &&& same_queue_but_tasks_status(old(self).queues@[id], final(self).queues@[id])
            },
    {
        self.current_state = TaskManagerState::Stopped;
        let _ = self.stop_sending_all_tasks();
        Ok(())
    }

    /// Stops the manager at once and drops every queue.
    pub fn force_shutdown(&mut self)
        ensures
            final(self).current_state == TaskManagerState::Stopped,
            final(self).queues@ == Map::<Id, SyncTaskQueue>::empty(),
            final(self).wf(),
    {
        self.current_state = TaskManagerState::Stopped;
        self.queues.clear();
    }

    /// Starts listening: the manager runs and every queue starts sending.
    pub fn begin_listening(&mut self)
        requires
            old(self).wf(),
        ensures
            final(self).wf(),
            final(self).current_state == TaskManagerState::Running,
            final(self).queues@.dom() == old(self).queues@.dom(),
            forall|id: Id| #[trigger] old(self).queues@.contains_key(id) ==> {
                &&& final(self).queues@[id].tasks@ == old(self).queues@[id].tasks@
                &&& final(self).queues@[id].status == QueueStatus::SendingTasks
                &&& same_queue_but_tasks_status(old(self).queues@[id], final(self).queues@[id])
            },
    {
        self.current_state = TaskManagerState::Running;
        let ids = self.queue_ids();
        let mut i: usize = 0;
        while i < ids.len()
            invariant
                i <= ids@.len(),
                ids@.no_duplicates(),
                ids@.to_set() == old(self).queues@.dom(),
                self.queues@.dom() == old(self).queues@.dom(),
                self.current_state == TaskManagerState::Running,
                self.wf(),
                forall|j: int| 0 <= j < i ==> {
                    let id = #[trigger] ids@[j];
                    &&& self.queues@[id].tasks@ == old(self).queues@[id].tasks@
                    &&& self.queues@[id].status == QueueStatus::SendingTasks
                    &&& same_queue_but_tasks_status(old(self).queues@[id], self.queues@[id])
                },
                forall|j: int| i <= j < ids@.len() ==> self.queues@[#[trigger] ids@[j]] == old(
                    self,
                ).queues@[ids@[j]],
            decreases ids@.len() - i,
        {
            let id = ids[i];
            assert(ids@.to_set().contains(id));
            let ghost before = self.queues@;
            let mut q = self.queues.remove(&id).unwrap();
            q.start_sending_tasks();
            self.queues.insert(id, q);
            proof {
                assert forall|j: int| i < j < ids@.len() implies self.queues@[#[trigger] ids@[j]]
                    == old(self).queues@[ids@[j]] by {
                    assert(ids@[j] != id);
                }
                assert forall|j: int| 0 <= j < i implies self.queues@[#[trigger] ids@[j]] == before[ids@[j]] by {
                    assert(ids@[j] != id);
                }
            }
            i = i + 1;
        }
        proof {
            assert forall|id: Id| #[trigger] old(self).queues@.contains_key(id) implies {
                &&& self.queues@[id].tasks@ == old(self).queues@[id].tasks@
                &&& self.queues@[id].status == QueueStatus::SendingTasks
                &&& same_queue_but_tasks_status(old(self).queues@[id], self.queues@[id])
            } by {
                assert(ids@.to_set().contains(id));
                let j = choose|j: int| 0 <= j < ids@.len() && ids@[j] == id;
            }
        }
    }

    /// Serves a task request that reached the queue of `queue_id`: `None` when
    /// the manager has no such queue, else what the queue answers.
    pub fn fetch_task(&mut self, queue_id: QueueId, request: Option<GetTaskRequest>) -> (r: Option<
        Result<SyncTask, QueueError>,
    >)
        requires
            old(self).wf(),
            old(self).queues@.contains_key(queue_id) && old(self).queues@[queue_id].serves(request) ==> old(
                self,
            ).queues@[queue_id].fetch_ok(),
        ensures
            final(self).wf(),
            final(self).current_state == old(self).current_state,
            no_new_finish(old(self).queues@, final(self).queues@),
            !old(self).queues@.contains_key(queue_id) ==> r is None && final(self).queues@ == old(self).queues@,
            old(self).queues@.contains_key(queue_id) ==> {
                &&& r matches Some(res) && old(self).queues@[queue_id].fetch_for_request_ok(
                    request,
                    res,
                    &final(self).queues@[queue_id],
                )
                &&& others_same(old(self).queues@, final(self).queues@, queue_id)
            },
    {
        let r = match self.queues.remove(&queue_id) {
            None => None,
            Some(q) => {
                let mut q = q;
                let result = q.fetch_for_request(request);
                self.queues.insert(queue_id, q);
                Some(result)
            },
        };
        proof {
            assert(self.queues@.dom() =~= old(self).queues@.dom());
        }
        r
    }

    /// What a queue's answer to a task request leads to: a task is sent on;
    /// a spent daily budget, and a countdown the request started, are
    /// reported; an empty queue is marked finished; a queue never started is
    /// started; anything else is let go.
    pub fn handle_fetch_result(&mut self, queue_id: QueueId, result: Result<SyncTask, QueueError>) -> (r:
        FetchAction)
        requires
            old(self).wf(),
        ensures
            final(self).wf(),
            final(self).current_state == old(self).current_state,
            only_finishes(old(self).queues@, final(self).queues@, queue_id),
            !(result matches Err(QueueError::NothingToSend)) ==> no_new_finish(old(self).queues@, final(self).queues@),
            match result {
                Ok(task) => r == FetchAction::SendTask(task) && final(self).queues@ == old(self).queues@,
                Err(QueueError::DailyLimitExceeded) => r matches FetchAction::ReportError(
                    TaskManagerError::DailyLimitExceeded,
                ) && final(self).queues@ == old(self).queues@,
                Err(QueueError::RateLimited(started, secs)) => (if started {
                    r matches FetchAction::ReportError(TaskManagerError::RateLimited(b, t)) && b && t
                        == secs
                } else {
                    r is Nothing
                }) && final(self).queues@ == old(self).queues@,
                Err(QueueError::NothingToSend) => r is Nothing && (old(self).queues@.contains_key(queue_id) ==> {
                    &&& others_same(old(self).queues@, final(self).queues@, queue_id)
                    &&& final(self).queues@[queue_id].status == QueueStatus::Finished
                    &&& final(self).queues@[queue_id].tasks@ == old(self).queues@[queue_id].tasks@
                    &&& same_queue_but_tasks_status(old(self).queues@[queue_id], final(self).queues@[queue_id])
                }) && (!old(self).queues@.contains_key(queue_id) ==> final(self).queues@ == old(self).queues@),
                Err(QueueError::SendingNotStarted(_)) => r is Nothing && (old(self).queues@.contains_key(
                    queue_id,
                ) ==> {
                    &&& others_same(old(self).queues@, final(self).queues@, queue_id)
                    &&& final(self).queues@[queue_id].status == QueueStatus::SendingTasks
                    &&& final(self).queues@[queue_id].tasks@ == old(self).queues@[queue_id].tasks@
                    &&& same_queue_but_tasks_status(old(self).queues@[queue_id], final(self).queues@[queue_id])
                }) && (!old(self).queues@.contains_key(queue_id) ==> final(self).queues@ == old(self).queues@),
                _ => r is Nothing && final(self).queues@ == old(self).queues@,
            },
    {
        let r = match result {
            Ok(task) => FetchAction::SendTask(task),
            Err(e) => match e {
                QueueError::DailyLimitExceeded => FetchAction::ReportError(TaskManagerError::DailyLimitExceeded),
                QueueError::NothingToSend => {
                    match self.queues.remove(&queue_id) {
                        Some(q) => {
                            let mut q = q;
                            q.finished();
                            self.queues.insert(queue_id, q);
                        },
                        None => {},
                    }
                    FetchAction::Nothing
                },
                QueueError::RateLimited(countdown_started, seconds_left) => {
                    if countdown_started {
                        FetchAction::ReportError(TaskManagerError::RateLimited(true, seconds_left))
                    } else {
                        FetchAction::Nothing
                    }
                },
                QueueError::SendingNotStarted(_) => {
                    match self.queues.remove(&queue_id) {
                        Some(q) => {
                            let mut q = q;
                            q.start_sending_tasks();
                            self.queues.insert(queue_id, q);
                        },
                        None => {},
                    }
                    FetchAction::Nothing
                },
                _ => FetchAction::Nothing,
            },
        };
        proof {
            assert(self.queues@.dom() =~= old(self).queues@.dom());
        }
        r
    }

    /// A task that could not be sent goes back to the end of its queue, when
    /// the queue has a retry left.
    pub fn return_unsent_task(&mut self, queue_id: QueueId, task: SyncTask)
        requires
            old(self).wf(),
        ensures
            final(self).wf(),
            final(self).current_state == old(self).current_state,
            no_new_finish(old(self).queues@, final(self).queues@),
            !old(self).queues@.contains_key(queue_id) ==> final(self).queues@ == old(self).queues@,
            old(self).queues@.contains_key(queue_id) ==> {
                let q0 = old(self).queues@[queue_id];
                let q1 = final(self).queues@[queue_id];
                &&& others_same(old(self).queues@, final(self).queues@, queue_id)
                &&& q0.spec_can_retry() ==> q1.tasks@ == q0.tasks@.push(task)
                &&& !q0.spec_can_retry() ==> q1.tasks@ == q0.tasks@
                &&& q1.status == q0.status
                &&& q1.retries_left == q0.retries_left
                &&& q1.max_retry == q0.max_retry
                &&& q1.sync_plan_id == q0.sync_plan_id
                &&& q1.limiter_view() == q0.limiter_view()
            },
    {
        match self.queues.remove(&queue_id) {
            Some(q) => {
                let mut q = q;
                q.retry(task);
                self.queues.insert(queue_id, q);
            },
            None => {},
        }
        proof {
            assert(self.queues@.dom() =~= old(self).queues@.dom());
        }
    }

    /// Whether a task request to the queue of `queue_id` can be served: a
    /// queue that is not there is answered with nothing; one that is must
    /// be able to answer (see `SyncTaskQueue::can_fetch`).
    pub fn queue_can_fetch(&self, queue_id: QueueId) -> (r: bool)
        ensures
            r == (self.queues@.contains_key(queue_id) ==> self.queues@[queue_id].fetch_ok()),
    {
        match self.queues.get(&queue_id) {
            Some(q) => q.can_fetch(),
            None => true,
        }
    }

    /// The listening loop is over once the manager no longer runs, or
    /// every queue it serves is gone or finished.
    pub fn listening_is_over(&self, queue_ids: &Vec<QueueId>) -> (r: bool)
        ensures
            r == (self.current_state != TaskManagerState::Running || forall|i: int|
                0 <= i < queue_ids@.len() ==> !self.queues@.contains_key(#[trigger] queue_ids@[i])
                    || self.queues@[queue_ids@[i]].status == QueueStatus::Finished),
    {
        if !self.is_running() {
            return true;
        }
        let mut i: usize = 0;
        while i < queue_ids.len()
            invariant
                i <= queue_ids@.len(),
                self.current_state == TaskManagerState::Running,
                forall|j: int|
                    0 <= j < i ==> !self.queues@.contains_key(#[trigger] queue_ids@[j])
                        || self.queues@[queue_ids@[j]].status == QueueStatus::Finished,
            decreases queue_ids@.len() - i,
        {
            if !self.queue_should_exit(queue_ids[i]) {
                assert(!(!self.queues@.contains_key(queue_ids@[i as int])
                    || self.queues@[queue_ids@[i as int]].status == QueueStatus::Finished));
                return false;
            }
            i = i + 1;
        }
        true
    }

    /// The loop serving a queue ends once the queue is gone or finished.
    pub fn queue_should_exit(&self, queue_id: QueueId) -> (r: bool)
        ensures
            r == (!self.queues@.contains_key(queue_id) || self.queues@[queue_id].status == QueueStatus::Finished),
    {
        match self.queues.get(&queue_id) {
            Some(q) => q.is_finished(),
            None => true,
        }
    }

    /// A failed task that came back: it goes to the front of its plan's
    /// queue, using up one retry, when the queue has retries left; otherwise
    /// it is dropped. A task of no plan is looked up under a fresh random id.
    /// Whether it was put back is returned.
    pub fn handle_failed_task(&mut self, failed_task: SyncTask) -> (r: bool)
        requires
            old(self).wf(),
        ensures
            final(self).wf(),
            final(self).current_state == old(self).current_state,
            failed_task.sync_plan_id matches Some(id) ==> {
                let put_back = old(self).queues@.contains_key(id) && (old(self).queues@[id].retries_left
                    matches Some(n) && n > 0);
                &&& r == put_back
                &&& !put_back ==> final(self).queues@ == old(self).queues@
                &&& put_back ==> {
                    let q0 = old(self).queues@[id];
                    let q1 = final(self).queues@[id];
                    &&& others_same(old(self).queues@, final(self).queues@, id)
                    &&& q1.tasks@ == seq![failed_task] + q0.tasks@
                    &&& q1.retries_left == Some((q0.retries_left->0 - 1) as u32)
                    &&& q1.status == q0.status
                    &&& q1.max_retry == q0.max_retry
                    &&& q1.sync_plan_id == q0.sync_plan_id
                    &&& q1.limiter_view() == q0.limiter_view()
                }
            },
            failed_task.sync_plan_id is None ==> (final(self).queues@ == old(self).queues@ || r),
            no_new_finish(old(self).queues@, final(self).queues@),
    {
        let q_key = match failed_task.sync_plan_id {
            Some(id) => id,
            None => new_id(),
        };
        match self.queues.remove(&q_key) {
            None => false,
            Some(q) => {
                let mut q = q;
                let mut put_back = false;
                if let Some(n_retry) = q.retries_left {
                    if n_retry > 0 {
                        q.push_front(failed_task);
                        q.retries_left = Some(n_retry - 1);
                        put_back = true;
                    }
                }
                self.queues.insert(q_key, q);
                proof {
                    if !put_back {
                        assert(self.queues@ =~= old(self).queues@);
                    }
                }
                put_back
            },
        }
    }

    /// Drops every queue that finished sending.
    pub fn remove_finished_queues(&mut self)
        requires
            old(self).wf(),
        ensures
            final(self).wf(),
            final(self).current_state == old(self).current_state,
            final(self).queues@.dom() == old(self).queues@.dom().filter(
                |id: Id| old(self).queues@[id].status != QueueStatus::Finished,
            ),
            forall|id: Id| #[trigger] final(self).queues@.contains_key(id) ==> final(self).queues@[id] == old(
                self,
            ).queues@[id],
            drops_finished(old(self).queues@, final(self).queues@),
    {
        let ids = self.queue_ids();
        let mut i: usize = 0;
        while i < ids.len()
            invariant
                i <= ids@.len(),
                ids@.no_duplicates(),
                ids@.to_set() == old(self).queues@.dom(),
                self.current_state == old(self).current_state,
                self.wf(),
                forall|id: Id| #[trigger] self.queues@.contains_key(id) ==> old(self).queues@.contains_key(id)
                    && self.queues@[id] == old(self).queues@[id],
                forall|id: Id| #[trigger] old(self).queues@.contains_key(id) ==> (self.queues@.contains_key(id)
                    <==> (old(self).queues@[id].status != QueueStatus::Finished || !ids@.take(i as int).contains(id))),
            decreases ids@.len() - i,
        {
            let id = ids[i];
            let finished = match self.queues.get(&id) {
                Some(q) => q.is_finished(),
                None => false,
            };
            if finished {
                self.queues.remove(&id);
            }
            proof {
                assert(ids@.take(i as int + 1) =~= ids@.take(i as int).push(id));
                assert(ids@.to_set().contains(id));
                assert forall|k: Id| #[trigger] old(self).queues@.contains_key(k) implies (self.queues@.contains_key(k)
                    <==> (old(self).queues@[k].status != QueueStatus::Finished || !ids@.take(i as int + 1).contains(k))) by {
                    if k == id {
                        assert(ids@.take(i as int + 1)[i as int] == id);
                        assert(ids@.take(i as int + 1).contains(k));
                    } else {
                        assert(ids@.take(i as int + 1).contains(k) == ids@.take(i as int).contains(k));
                    }
                }
            }
            i = i + 1;
        }
        proof {
            assert(ids@.take(ids@.len() as int) =~= ids@);
            assert forall|k: Id| #[trigger] old(self).queues@.contains_key(k) implies ids@.contains(k) by {
                assert(ids@.to_set().contains(k));
            }
            assert forall|k: Id| #[trigger] self.queues@.contains_key(k) implies old(self).queues@[k].status
                != QueueStatus::Finished by {
                assert(old(self).queues@.contains_key(k));
                assert(ids@.contains(k));
            }
            assert(self.queues@.dom() =~= old(self).queues@.dom().filter(
                |id: Id| old(self).queues@[id].status != QueueStatus::Finished,
            ));
        }
    }
}

proof fn lemma_leaving_needs_empty_fetch(
    states: Seq<Map<Id, SyncTaskQueue>>,
    events: Seq<ListenEvent>,
    id: Id,
    k: int,
)
    requires
        states.len() == events.len() + 1,
        forall|i: int| 0 <= i < events.len() ==> listen_step(states[i], #[trigger] events[i], states[i + 1]),
        states[0].contains_key(id),
        states[0][id].status != QueueStatus::Finished,
        0 <= k < states.len(),
        !states[k].contains_key(id) || states[k][id].status == QueueStatus::Finished,
    ensures
        exists|i: int| 0 <= i < k && events[i] == ListenEvent::EmptyQueue(id),
    decreases k,
{
    if k > 0 {
        let before = states[k - 1];
        let after = states[k];
        assert(listen_step(before, events[k - 1], after));
        if events[k - 1] == ListenEvent::EmptyQueue(id) {
            assert(0 <= k - 1 < k && events[k - 1] == ListenEvent::EmptyQueue(id));
        } else if !before.contains_key(id) || before[id].status == QueueStatus::Finished {
            lemma_leaving_needs_empty_fetch(states, events, id, k - 1);
            let i = choose|i: int| 0 <= i < k - 1 && events[i] == ListenEvent::EmptyQueue(id);
            assert(0 <= i < k && events[i] == ListenEvent::EmptyQueue(id));
        } else {
            match events[k - 1] {
                ListenEvent::Serve => {
                    assert(after.contains_key(id));
                },
                ListenEvent::EmptyQueue(j) => {
                    assert(after.contains_key(id));
                },
                ListenEvent::DropFinished => {
                    if !after.contains_key(id) {
                        assert(before.contains_key(id) && !after.contains_key(id));
                    }
                },
            }
        }
    }
}

/// Queues leave the listening loop only after running empty: in any run of
/// the loop's steps, a queue that was there and not finished at the start
/// is finished or gone at some point only if, before that, one of the
/// loop's fetches for it found it empty (the only step that finishes a
/// queue is `handle_fetch_result` of `NothingToSend`, and the only step that
/// drops queues, `remove_finished_queues`, drops finished ones).
pub proof fn law_queues_leave_only_after_running_empty(
    states: Seq<Map<Id, SyncTaskQueue>>,
    events: Seq<ListenEvent>,
    id: Id,
    k: int,
)
    requires
        states.len() == events.len() + 1,
        forall|i: int| 0 <= i < events.len() ==> listen_step(states[i], #[trigger] events[i], states[i + 1]),
        states[0].contains_key(id),
        states[0][id].status != QueueStatus::Finished,
        0 <= k < states.len(),
        !states[k].contains_key(id) || states[k][id].status == QueueStatus::Finished,
    ensures
        exists|i: int| 0 <= i < k && events[i] == ListenEvent::EmptyQueue(id),
{
    lemma_leaving_needs_empty_fetch(states, events, id, k);
}

} // verus!
