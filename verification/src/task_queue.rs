//! The task queue of one sync plan.
//!
//! A queue hands out its plan's tasks one at a time, in order, while it is
//! sending; a rate limiter, when the plan has one, decides whether a task may
//! go now. Failed tasks can be put back for another try.

use vstd::prelude::*;
use crate::ids::{Id, id_text, format_id};
use crate::rate_limiter::{
    LimiterCounters, RateLimitStatus, WebRequestRateLimiter, TimerError, MAX_DELTA_SECONDS,
};
use crate::task::{SyncTask, GetTaskRequest, SyncPlan};
use vstd::string::StringExecFns;

verus! {

/// The identifier of a queue: the id of its sync plan.
pub type QueueId = Id;

/// Seconds left before a rate-limited queue may send again.
pub type TimeSecondLeft = i64;

/// Where a queue is in sending its tasks.
#[derive(Debug, Clone, Copy, PartialEq, Eq, Structural)]
pub enum QueueStatus {
    Initialized,
    SendingTasks,
    Paused,
    RateLimited(TimeSecondLeft),
    Stopped,
    Finished,
}

impl Default for QueueStatus {
    fn default() -> (r: Self)
        ensures
            r == QueueStatus::Initialized,
    {
        QueueStatus::Initialized
    }
}

/// Why a queue gave no task.
#[derive(Debug)]
pub enum QueueError {
    /// The queue is empty.
    NothingToSend,
    /// The queue was never started.
    SendingNotStarted(String),
    /// The rate limiter refused: whether the countdown was started by this
    /// request, and the seconds left.
    RateLimited(bool, TimeSecondLeft),
    /// The plan's daily budget is spent.
    DailyLimitExceeded,
    /// The rate limiter's countdown could not be started.
    RateLimiterError(TimerError),
    QueuePaused(String),
    QueueStopped(String),
    QueueFinished(String),
    /// The request channel gave nothing.
    EmptyRequestReceived(String),
    /// The request was for another plan.
    UnmatchedSyncPlanId,
}

/// The message of a queue that was never started.
pub open spec fn not_started_message() -> Seq<char> {
    "Please call start before sending tasks"@
}

/// The message of a paused queue.
pub open spec fn paused_message() -> Seq<char> {
    "Queue is paused. Please call resume to begin sending tasks."@
}

/// The message of a stopped queue.
pub open spec fn stopped_message(id: Id) -> Seq<char> {
    "Queue "@ + id_text(id) + " has stopped."@
}

/// The message of a finished queue.
pub open spec fn finished_message(id: Id) -> Seq<char> {
    "Queue "@ + id_text(id) + " has finished sending tasks."@
}

/// The message of an empty request channel.
pub open spec fn empty_request_message() -> Seq<char> {
    "Expected to receive a task request but received none!"@
}

/// The limiter's counters after it answered a task request: when it asks for
/// the countdown, the countdown is started.
pub open spec fn limiter_after_fetch(l: LimiterCounters) -> LimiterCounters {
    if l.proceed_status() matches RateLimitStatus::RequestPerMinuteExceeded(true, _) {
        l.after_proceed().after_start_countdown(true)
    } else {
        l.after_proceed()
    }
}

/// What a task request through a rate limiter gives, and the tasks left:
/// `Ok` carries the first task.
pub open spec fn limited_fetch_ok(
    tasks: Seq<SyncTask>,
    l: LimiterCounters,
    r: Result<SyncTask, QueueError>,
    tasks_after: Seq<SyncTask>,
) -> bool {
    match l.proceed_status() {
        RateLimitStatus::Allowed(_) => if tasks.len() > 0 {
            r == Ok::<SyncTask, QueueError>(tasks[0]) && tasks_after == tasks.drop_first()
        } else {
            r matches Err(QueueError::NothingToSend) && tasks_after == tasks
        },
        RateLimitStatus::RequestPerDayExceeded => {
            r matches Err(QueueError::DailyLimitExceeded) && tasks_after == tasks
        },
        RateLimitStatus::RequestPerMinuteExceeded(start, secs) => {
            r matches Err(QueueError::RateLimited(b, s)) && b == start && s == secs
                && tasks_after == tasks
        },
    }
}

/// A task request with no rate limiter: `Ok` carries the first task.
pub open spec fn plain_fetch_ok(
    tasks: Seq<SyncTask>,
    r: Result<SyncTask, QueueError>,
    tasks_after: Seq<SyncTask>,
) -> bool {
    if tasks.len() > 0 {
        r == Ok::<SyncTask, QueueError>(tasks[0]) && tasks_after == tasks.drop_first()
    } else {
        r matches Err(QueueError::NothingToSend) && tasks_after == tasks
    }
}

/// The queue of one sync plan.
pub struct SyncTaskQueue {
    pub sync_plan_id: Id,
    pub tasks: std::collections::VecDeque<SyncTask>,
    pub rate_limiter: Option<WebRequestRateLimiter>,
    pub max_retry: Option<u32>,
    pub retries_left: Option<u32>,
    pub status: QueueStatus,
    pub initial_size: usize,
}

impl SyncTaskQueue {
    /// The queue's invariant: its rate limiter, when it has one, keeps its own.
    pub open spec fn wf(&self) -> bool {
        self.rate_limiter matches Some(l) ==> l@.wf()
    }

    /// The queue consults its rate limiter when asked for a task.
    pub open spec fn consults_limiter(&self) -> bool {
        (self.status is RateLimited && self.rate_limiter is Some) || (self.status
            is SendingTasks && self.rate_limiter is Some)
    }

    /// Asking for a task does not fail outright: a rate-limited queue has a
    /// limiter, and a countdown the limiter asks for fits in a time delta.
    pub open spec fn fetch_ok(&self) -> bool {
        &&& (self.status is RateLimited ==> self.rate_limiter is Some)
        &&& ((self.consults_limiter() && (self.rate_limiter->0@.proceed_status()
            matches RateLimitStatus::RequestPerMinuteExceeded(true, _)))
            ==> self.rate_limiter->0@.cool_down_seconds <= MAX_DELTA_SECONDS)
    }

    /// The limiter's counters, when the queue has a limiter.
    pub open spec fn limiter_view(&self) -> Option<LimiterCounters> {
        match self.rate_limiter {
            Some(l) => Some(l@),
            None => None,
        }
    }

    /// Everything but the tasks and the limiter is as in `other`.
    pub open spec fn same_settings(&self, other: &SyncTaskQueue) -> bool {
        &&& self.sync_plan_id == other.sync_plan_id
        &&& self.max_retry == other.max_retry
        &&& self.retries_left == other.retries_left
        &&& self.status == other.status
        &&& self.initial_size == other.initial_size
    }

    /// The whole queue is as in `other`, tasks and limiter included.
    pub open spec fn unchanged_from(&self, other: &SyncTaskQueue) -> bool {
        &&& self.same_settings(other)
        &&& self.tasks@ == other.tasks@
        &&& self.limiter_view() == other.limiter_view()
    }

    /// A queue of `tasks`, in order, ready to be started; it keeps up to
    /// `max_retry` retries.
    pub fn new(
        tasks: Vec<SyncTask>,
        rate_limiter: Option<WebRequestRateLimiter>,
        max_retry: Option<u32>,
        sync_plan_id: Id,
    ) -> (r: SyncTaskQueue)
        ensures
            r.tasks@ == tasks@,
            r.rate_limiter == rate_limiter,
            r.max_retry == max_retry,
            r.retries_left == max_retry,
            r.sync_plan_id == sync_plan_id,
            r.status == QueueStatus::Initialized,
            r.initial_size == tasks@.len(),
    {
        let total_tasks = tasks.len();
        let mut tasks = tasks;
        let ghost all = tasks@;
        let mut queue: std::collections::VecDeque<SyncTask> = std::collections::VecDeque::new();
        while tasks.len() > 0
            invariant
                all == tasks@ + queue@,
            decreases tasks.len(),
        {
            let ghost before = tasks@;
            let t = tasks.pop().unwrap();
            let ghost q_before = queue@;
            queue.push_front(t);
            assert(before == tasks@.push(t));
            assert(tasks@ + queue@ =~= before + q_before);
        }
        assert(queue@ =~= all);
        SyncTaskQueue {
            tasks: queue,
            rate_limiter,
            max_retry,
            retries_left: max_retry,
            sync_plan_id,
            status: QueueStatus::Initialized,
            initial_size: total_tasks,
        }
    }

    /// Whether asking this queue for a task can be answered: a rate-limited
    /// queue needs its limiter, and a countdown the limiter would ask for
    /// must fit in a time delta.
    pub fn can_fetch(&self) -> (r: bool)
        ensures
            r == self.fetch_ok(),
    {
        let limited = match self.status {
            QueueStatus::RateLimited(_) => true,
            _ => false,
        };
        match &self.rate_limiter {
            None => !limited,
            Some(l) => {
                let consults = limited || self.status == QueueStatus::SendingTasks;
                if consults && l.asks_for_countdown() {
                    l.cool_down_seconds() <= MAX_DELTA_SECONDS
                } else {
                    true
                }
            },
        }
    }

    /// Starts handing out tasks.
    pub fn start_sending_tasks(&mut self)
        ensures
            final(self).status == QueueStatus::SendingTasks,
            final(self).tasks@ == old(self).tasks@,
            final(self).limiter_view() == old(self).limiter_view(),
            final(self).sync_plan_id == old(self).sync_plan_id,
            final(self).max_retry == old(self).max_retry,
            final(self).retries_left == old(self).retries_left,
            final(self).initial_size == old(self).initial_size,
    {
        self.status = QueueStatus::SendingTasks;
    }

    /// Pauses the queue.
    pub fn pause(&mut self)
        ensures
            final(self).status == QueueStatus::Paused,
            final(self).tasks@ == old(self).tasks@,
            final(self).limiter_view() == old(self).limiter_view(),
            final(self).sync_plan_id == old(self).sync_plan_id,
            final(self).max_retry == old(self).max_retry,
            final(self).retries_left == old(self).retries_left,
            final(self).initial_size == old(self).initial_size,
    {
        self.status = QueueStatus::Paused;
    }

    /// Resumes handing out tasks.
    pub fn resume(&mut self)
        ensures
            final(self).status == QueueStatus::SendingTasks,
            final(self).tasks@ == old(self).tasks@,
            final(self).limiter_view() == old(self).limiter_view(),
            final(self).sync_plan_id == old(self).sync_plan_id,
            final(self).max_retry == old(self).max_retry,
            final(self).retries_left == old(self).retries_left,
            final(self).initial_size == old(self).initial_size,
    {
        self.status = QueueStatus::SendingTasks;
    }

    /// Marks the queue as done sending.
    pub fn finished(&mut self)
        ensures
            final(self).status == QueueStatus::Finished,
            final(self).tasks@ == old(self).tasks@,
            final(self).limiter_view() == old(self).limiter_view(),
            final(self).sync_plan_id == old(self).sync_plan_id,
            final(self).max_retry == old(self).max_retry,
            final(self).retries_left == old(self).retries_left,
            final(self).initial_size == old(self).initial_size,
    {
        self.status = QueueStatus::Finished;
    }

    /// Stops the queue and hands back every task it still held.
    pub fn stop(&mut self) -> (r: Vec<SyncTask>)
        ensures
            r@ == old(self).tasks@,
            final(self).tasks@.len() == 0,
            final(self).status == QueueStatus::Stopped,
            final(self).limiter_view() == old(self).limiter_view(),
            final(self).sync_plan_id == old(self).sync_plan_id,
            final(self).max_retry == old(self).max_retry,
            final(self).retries_left == old(self).retries_left,
            final(self).initial_size == old(self).initial_size,
    {
        self.drain_all()
    }

    /// Answers a task request that came over the request channel: nothing
    /// received, a request for another plan, or a request for this plan,
    /// which is served by `pop_front`.
    pub fn fetch_for_request(&mut self, request: Option<GetTaskRequest>) -> (r: Result<
        SyncTask,
        QueueError,
    >)
        requires
            old(self).wf(),
            old(self).serves(request) ==> old(self).fetch_ok(),
        ensures
            final(self).wf(),
            old(self).fetch_for_request_ok(request, r, final(self)),
    {
        match request {
            None => Err(
                QueueError::EmptyRequestReceived(
                    String::from_str("Expected to receive a task request but received none!"),
                ),
            ),
            Some(task_fetch_request) => {
                if task_fetch_request.sync_plan_id != self.sync_plan_id {
                    Err(QueueError::UnmatchedSyncPlanId)
                } else {
                    self.pop_front()
                }
            },
        }
    }

    /// The request is for this queue's plan.
    pub open spec fn serves(&self, request: Option<GetTaskRequest>) -> bool {
        request matches Some(req) && req.sync_plan_id == self.sync_plan_id
    }

    /// What `fetch_for_request` gives from `self`, and the queue it leaves.
    pub open spec fn fetch_for_request_ok(
        &self,
        request: Option<GetTaskRequest>,
        r: Result<SyncTask, QueueError>,
        after: &SyncTaskQueue,
    ) -> bool {
        &&& request is None ==> (r matches Err(QueueError::EmptyRequestReceived(m)) && m@
            == empty_request_message() && after.unchanged_from(self))
        &&& (request is Some && !self.serves(request)) ==> (r matches Err(
            QueueError::UnmatchedSyncPlanId,
        ) && after.unchanged_from(self))
        &&& self.serves(request) ==> self.pop_front_ok(r, after)
    }

    /// What `pop_front` gives from `self`, and the queue it leaves.
    pub open spec fn pop_front_ok(&self, r: Result<SyncTask, QueueError>, after: &SyncTaskQueue) -> bool {
        &&& after.same_settings(self)
        &&& after.wf() == self.wf()
        &&& match self.status {
            QueueStatus::Initialized => r matches Err(QueueError::SendingNotStarted(m)) && m@
                == not_started_message() && after.unchanged_from(self),
            QueueStatus::Paused => r matches Err(QueueError::QueuePaused(m)) && m@
                == paused_message() && after.unchanged_from(self),
            QueueStatus::Stopped => r matches Err(QueueError::QueueStopped(m)) && m@
                == stopped_message(self.sync_plan_id) && after.unchanged_from(self),
            QueueStatus::Finished => r matches Err(QueueError::QueueFinished(m)) && m@
                == finished_message(self.sync_plan_id) && after.unchanged_from(self),
            _ => if self.rate_limiter is Some {
                &&& after.limiter_view() == Some(limiter_after_fetch(self.rate_limiter->0@))
                &&& limited_fetch_ok(self.tasks@, self.rate_limiter->0@, r, after.tasks@)
                &&& after.rate_limiter->0.spec_id() == self.rate_limiter->0.spec_id()
                &&& self.rate_limiter->0@.proceed_status() is Allowed ==> after.rate_limiter->0.spec_last_request_time() is Some
                &&& !(self.rate_limiter->0@.proceed_status() is Allowed) ==> after.rate_limiter->0.spec_last_request_time()
                    == self.rate_limiter->0.spec_last_request_time()
            } else {
                &&& after.limiter_view() == self.limiter_view()
                &&& plain_fetch_ok(self.tasks@, r, after.tasks@)
            },
        }
    }

    /// Asks the rate limiter, then takes the first task when it allows one,
    /// and the limiter records the request's time; when the limiter asks for
    /// the countdown, the countdown is started.
    fn try_fetch_task(
        tasks: &mut std::collections::VecDeque<SyncTask>,
        rate_limiter: &mut WebRequestRateLimiter,
    ) -> (r: Result<SyncTask, QueueError>)
        requires
            old(rate_limiter)@.wf(),
            old(rate_limiter)@.proceed_status() matches RateLimitStatus::RequestPerMinuteExceeded(
                true,
                _,
            ) ==> old(rate_limiter)@.cool_down_seconds <= MAX_DELTA_SECONDS,
        ensures
            final(rate_limiter)@ == limiter_after_fetch(old(rate_limiter)@),
            final(rate_limiter)@.wf(),
            final(rate_limiter).spec_id() == old(rate_limiter).spec_id(),
            old(rate_limiter)@.proceed_status() is Allowed ==> final(rate_limiter).spec_last_request_time() is Some,
            !(old(rate_limiter)@.proceed_status() is Allowed) ==> final(rate_limiter).spec_last_request_time() == old(
                rate_limiter,
            ).spec_last_request_time(),
            limited_fetch_ok(old(tasks)@, old(rate_limiter)@, r, final(tasks)@),
    {
        let rate_limiter_response = rate_limiter.can_proceed();
        match rate_limiter_response {
            RateLimitStatus::Allowed(_) => {
                match tasks.pop_front() {
                    Some(value) => Ok(value),
                    None => Err(QueueError::NothingToSend),
                }
            },
            RateLimitStatus::RequestPerDayExceeded => Err(QueueError::DailyLimitExceeded),
            RateLimitStatus::RequestPerMinuteExceeded(should_start_cooldown, seconds_left) => {
                if !should_start_cooldown {
                    return Err(QueueError::RateLimited(false, seconds_left));
                }
                let result = rate_limiter.start_countdown(true);
                match result {
                    Ok(()) => Err(QueueError::RateLimited(true, seconds_left)),
                    Err(e) => Err(QueueError::RateLimiterError(e)),
                }
            },
        }
    }

    /// Tries to take the first task. A queue that is not sending answers with
    /// its status; a queue with a rate limiter asks it first.
    pub fn pop_front(&mut self) -> (r: Result<SyncTask, QueueError>)
        requires
            old(self).wf(),
            old(self).fetch_ok(),
        ensures
            final(self).wf(),
            old(self).pop_front_ok(r, final(self)),
    {
        match self.status {
            QueueStatus::Initialized => Err(
                QueueError::SendingNotStarted(
                    String::from_str("Please call start before sending tasks"),
                ),
            ),
            QueueStatus::Paused => Err(
                QueueError::QueuePaused(
                    String::from_str("Queue is paused. Please call resume to begin sending tasks."),
                ),
            ),
            QueueStatus::Stopped => {
                let mut message = String::from_str("Queue ");
                let id = format_id(self.sync_plan_id);
                message.append(id.as_str());
                message.append(" has stopped.");
                Err(QueueError::QueueStopped(message))
            },
            QueueStatus::Finished => {
                let mut message = String::from_str("Queue ");
                let id = format_id(self.sync_plan_id);
                message.append(id.as_str());
                message.append(" has finished sending tasks.");
                Err(QueueError::QueueFinished(message))
            },
            _ => {
                match &mut self.rate_limiter {
                    None => match self.tasks.pop_front() {
                        Some(task) => Ok(task),
                        None => Err(QueueError::NothingToSend),
                    },
                    Some(rate_limiter) => Self::try_fetch_task(&mut self.tasks, rate_limiter),
                }
            },
        }
    }

    /// Removes the tasks at positions `start..end` and hands them back; the
    /// queue is then stopped.
    pub fn drain(&mut self, start: usize, end: usize) -> (r: Vec<SyncTask>)
        requires
            start <= end <= old(self).tasks@.len(),
        ensures
            r@ == old(self).tasks@.subrange(start as int, end as int),
            final(self).tasks@ == old(self).tasks@.subrange(0, start as int) + old(
                self,
            ).tasks@.subrange(end as int, old(self).tasks@.len() as int),
            final(self).status == QueueStatus::Stopped,
            final(self).limiter_view() == old(self).limiter_view(),
            final(self).sync_plan_id == old(self).sync_plan_id,
            final(self).max_retry == old(self).max_retry,
            final(self).retries_left == old(self).retries_left,
            final(self).initial_size == old(self).initial_size,
    {
        let mut middle = self.tasks.split_off(start);
        let mut rest = middle.split_off(end - start);
        self.tasks.append(&mut rest);
        let ghost taken = middle@;
        let mut values: Vec<SyncTask> = Vec::new();
        while middle.len() > 0
            invariant
                values@ + middle@ == taken,
            decreases middle.len(),
        {
            let ghost m_before = middle@;
            let t = middle.pop_front().unwrap();
            values.push(t);
            assert(values@ + middle@ =~= taken);
        }
        assert(values@ =~= taken);
        self.status = QueueStatus::Stopped;
        values
    }

    /// Removes every task and hands them back; the queue is then stopped.
    pub fn drain_all(&mut self) -> (r: Vec<SyncTask>)
        ensures
            r@ == old(self).tasks@,
            final(self).tasks@.len() == 0,
            final(self).status == QueueStatus::Stopped,
            final(self).limiter_view() == old(self).limiter_view(),
            final(self).sync_plan_id == old(self).sync_plan_id,
            final(self).max_retry == old(self).max_retry,
            final(self).retries_left == old(self).retries_left,
            final(self).initial_size == old(self).initial_size,
    {
        let len = self.len();
        let r = self.drain(0, len);
        assert(old(self).tasks@.subrange(0, len as int) =~= old(self).tasks@);
        r
    }

    /// Adds a task at the back; the initial size grows to the length when the
    /// queue outgrows it.
    pub fn push_back(&mut self, task: SyncTask)
        ensures
            final(self).tasks@ == old(self).tasks@.push(task),
            final(self).initial_size == (if old(self).tasks@.len() + 1 > old(self).initial_size {
                (old(self).tasks@.len() + 1) as usize
            } else {
                old(self).initial_size
            }),
            final(self).limiter_view() == old(self).limiter_view(),
            final(self).sync_plan_id == old(self).sync_plan_id,
            final(self).max_retry == old(self).max_retry,
            final(self).retries_left == old(self).retries_left,
            final(self).status == old(self).status,
    {
        self.tasks.push_back(task);
        if self.len() > self.initial_size {
            self.initial_size = self.len();
        }
    }

    /// Adds a task at the front; the initial size grows to the length when
    /// the queue outgrows it.
    pub fn push_front(&mut self, task: SyncTask)
        ensures
            final(self).tasks@ == seq![task] + old(self).tasks@,
            final(self).initial_size == (if old(self).tasks@.len() + 1 > old(self).initial_size {
                (old(self).tasks@.len() + 1) as usize
            } else {
                old(self).initial_size
            }),
            final(self).limiter_view() == old(self).limiter_view(),
            final(self).sync_plan_id == old(self).sync_plan_id,
            final(self).max_retry == old(self).max_retry,
            final(self).retries_left == old(self).retries_left,
            final(self).status == old(self).status,
    {
        self.tasks.push_front(task);
        if self.len() > self.initial_size {
            self.initial_size = self.len();
        }
    }

    /// The first task, when there is one.
    pub fn front(&self) -> (r: Option<&SyncTask>)
        ensures
            self.tasks@.len() > 0 ==> r == Some(&self.tasks@[0]),
            self.tasks@.len() == 0 ==> r is None,
    {
        if self.tasks.len() > 0 {
            Some(&self.tasks[0])
        } else {
            None
        }
    }

    /// The queue holds no task.
    pub fn is_empty(&self) -> (r: bool)
        ensures
            r == (self.tasks@.len() == 0),
    {
        self.tasks.len() == 0
    }

    /// The queue finished sending.
    pub fn is_finished(&self) -> (r: bool)
        ensures
            r == (self.status == QueueStatus::Finished),
    {
        self.status == QueueStatus::Finished
    }

    /// The queue is sending.
    pub fn is_running(&self) -> (r: bool)
        ensures
            r == (self.status == QueueStatus::SendingTasks),
    {
        self.status == QueueStatus::SendingTasks
    }

    /// The queue is paused.
    pub fn is_paused(&self) -> (r: bool)
        ensures
            r == (self.status == QueueStatus::Paused),
    {
        self.status == QueueStatus::Paused
    }

    /// The queue is stopped.
    pub fn is_stopped(&self) -> (r: bool)
        ensures
            r == (self.status == QueueStatus::Stopped),
    {
        self.status == QueueStatus::Stopped
    }

    /// The number of tasks held.
    pub fn len(&self) -> (r: usize)
        ensures
            r == self.tasks@.len(),
    {
        self.tasks.len()
    }

    /// Whether a failed task may be put back: with no retry limit always;
    /// otherwise while retries are left, no more than the limit.
    pub open spec fn spec_can_retry(&self) -> bool {
        match self.max_retry {
            Some(max_retry) => self.retries_left matches Some(n) && n > 0 && n <= max_retry,
            None => true,
        }
    }

    /// Whether a failed task may be put back.
    pub fn can_retry(&self) -> (r: bool)
        ensures
            r == self.spec_can_retry(),
    {
        match self.max_retry {
            Some(max_retry) => {
                if let Some(n_retry) = self.retries_left {
                    n_retry > 0 && n_retry <= max_retry
                } else {
                    false
                }
            },
            None => true,
        }
    }

    /// Puts a failed task back at the end of the queue when a retry is left.
    /// The count of retries left is not changed here.
    pub fn retry(&mut self, task: SyncTask)
        ensures
            old(self).spec_can_retry() ==> final(self).tasks@ == old(self).tasks@.push(task),
            !old(self).spec_can_retry() ==> final(self).tasks@ == old(self).tasks@,
            final(self).limiter_view() == old(self).limiter_view(),
            final(self).sync_plan_id == old(self).sync_plan_id,
            final(self).max_retry == old(self).max_retry,
            final(self).retries_left == old(self).retries_left,
            final(self).status == old(self).status,
            old(self).spec_can_retry() ==> final(self).initial_size == (if old(self).tasks@.len() + 1
                > old(self).initial_size {
                (old(self).tasks@.len() + 1) as usize
            } else {
                old(self).initial_size
            }),
            !old(self).spec_can_retry() ==> final(self).initial_size == old(self).initial_size,
    {
        if self.can_retry() {
            self.push_back(task)
        }
    }
}

/// Builds a queue piece by piece.
pub struct SyncTaskQueueBuilder {
    pub sync_plan_id: Option<Id>,
    pub tasks: Option<std::collections::VecDeque<SyncTask>>,
    pub rate_limiter: Option<WebRequestRateLimiter>,
    pub max_retry: Option<u32>,
    pub retries_left: Option<u32>,
    pub status: Option<QueueStatus>,
    pub initial_size: Option<usize>,
}

impl SyncTaskQueueBuilder {
    /// A builder with no plan, no tasks, no limiter and no retries.
    pub fn new() -> (r: SyncTaskQueueBuilder)
        ensures
            r.sync_plan_id is None,
            r.tasks matches Some(t) && t@.len() == 0,
            r.rate_limiter is None,
            r.max_retry is None,
            r.retries_left is None,
            r.status == Some(QueueStatus::Initialized),
            r.initial_size == Some(0usize),
    {
        SyncTaskQueueBuilder {
            sync_plan_id: None,
            tasks: Some(std::collections::VecDeque::new()),
            rate_limiter: None,
            max_retry: None,
            retries_left: None,
            status: Some(QueueStatus::Initialized),
            initial_size: Some(0),
        }
    }

    /// Sets the plan.
    pub fn with_sync_plan_id(self, sync_plan_id: Id) -> (r: Self)
        ensures
            r == (SyncTaskQueueBuilder { sync_plan_id: Some(sync_plan_id), ..self }),
    {
        SyncTaskQueueBuilder { sync_plan_id: Some(sync_plan_id), ..self }
    }

    /// Sets the tasks.
    pub fn with_tasks(self, tasks: std::collections::VecDeque<SyncTask>) -> (r: Self)
        ensures
            r == (SyncTaskQueueBuilder { tasks: Some(tasks), ..self }),
    {
        SyncTaskQueueBuilder { tasks: Some(tasks), ..self }
    }

    /// Sets the rate limiter.
    pub fn with_rate_limiter(self, rate_limiter: WebRequestRateLimiter) -> (r: Self)
        ensures
            r == (SyncTaskQueueBuilder { rate_limiter: Some(rate_limiter), ..self }),
    {
        SyncTaskQueueBuilder { rate_limiter: Some(rate_limiter), ..self }
    }

    /// Sets the retry limit.
    pub fn with_max_retry(self, max_retry: u32) -> (r: Self)
        ensures
            r == (SyncTaskQueueBuilder { max_retry: Some(max_retry), ..self }),
    {
        SyncTaskQueueBuilder { max_retry: Some(max_retry), ..self }
    }

    /// Sets the retries left.
    pub fn with_retries_left(self, retries_left: u32) -> (r: Self)
        ensures
            r == (SyncTaskQueueBuilder { retries_left: Some(retries_left), ..self }),
    {
        SyncTaskQueueBuilder { retries_left: Some(retries_left), ..self }
    }

    /// Sets the status.
    pub fn with_status(self, status: QueueStatus) -> (r: Self)
        ensures
            r == (SyncTaskQueueBuilder { status: Some(status), ..self }),
    {
        SyncTaskQueueBuilder { status: Some(status), ..self }
    }

    /// Sets the initial size.
    pub fn with_initial_size(self, initial_size: usize) -> (r: Self)
        ensures
            r == (SyncTaskQueueBuilder { initial_size: Some(initial_size), ..self }),
    {
        SyncTaskQueueBuilder { initial_size: Some(initial_size), ..self }
    }

    /// The queue: made like `SyncTaskQueue::new` from the tasks (none when
    /// unset), the limiter, the retry limit and the plan, which must be set.
    /// The retries left, status and initial size set here are not used.
    pub fn build(self) -> (r: SyncTaskQueue)
        requires
            self.sync_plan_id is Some,
        ensures
            r.tasks@ == (match self.tasks {
                Some(t) => t@,
                None => Seq::<SyncTask>::empty(),
            }),
            r.rate_limiter == self.rate_limiter,
            r.max_retry == self.max_retry,
            r.retries_left == self.max_retry,
            r.sync_plan_id == self.sync_plan_id->0,
            r.status == QueueStatus::Initialized,
            r.initial_size == r.tasks@.len(),
    {
        let mut tasks: std::collections::VecDeque<SyncTask> = match self.tasks {
            Some(t) => t,
            None => std::collections::VecDeque::new(),
        };
        let ghost all = tasks@;
        let mut list: Vec<SyncTask> = Vec::new();
        while tasks.len() > 0
            invariant
                list@ + tasks@ == all,
            decreases tasks.len(),
        {
            let t = tasks.pop_front().unwrap();
            list.push(t);
            assert(list@ + tasks@ =~= all);
        }
        assert(list@ =~= all);
        SyncTaskQueue::new(list, self.rate_limiter, self.max_retry, self.sync_plan_id.unwrap())
    }
}

/// Two tasks are copies of each other: the same task, plan, request and
/// progress.
pub open spec fn same_task(a: SyncTask, b: SyncTask) -> bool {
    &&& a.id == b.id
    &&& a.sync_plan_id == b.sync_plan_id
    &&& a.spec.request_endpoint == b.spec.request_endpoint
    &&& a.spec.request_method == b.spec.request_method
    &&& a.spec.request_header@ == b.spec.request_header@
    &&& a.spec.payload == b.spec.payload
    &&& a.status == b.status
    &&& a.start_time == b.start_time
    &&& a.end_time == b.end_time
    &&& a.result == b.result
    &&& a.result_message == b.result_message
}

/// A queue for a plan with the given limiter: the plan's tasks, in order, and
/// its retry limit when its config has a rate quota; no tasks and no retry
/// limit when no plan is given.
pub fn create_task_queue(
    sync_plan_id: Id,
    sync_plan: Option<&SyncPlan>,
    rate_limiter: Option<WebRequestRateLimiter>,
) -> (r: SyncTaskQueue)
    ensures
        r.sync_plan_id == sync_plan_id,
        r.rate_limiter == rate_limiter,
        r.status == QueueStatus::Initialized,
        r.initial_size == r.tasks@.len(),
        r.retries_left == r.max_retry,
        match sync_plan {
            Some(plan) => {
                &&& r.tasks@.len() == plan.tasks@.len()
                &&& forall|i: int|
                    0 <= i < plan.tasks@.len() ==> same_task(#[trigger] r.tasks@[i], plan.tasks@[i])
                &&& r.max_retry == (match plan.sync_config.sync_rate_quota {
                    Some(q) => Some(q.max_retry),
                    None => None,
                })
            },
            None => r.tasks@.len() == 0 && r.max_retry is None,
        },
{
    let mut builder = SyncTaskQueueBuilder::new().with_sync_plan_id(sync_plan_id);
    if let Some(limiter) = rate_limiter {
        builder = builder.with_rate_limiter(limiter);
    }
    if let Some(plan) = sync_plan {
        let mut tasks: std::collections::VecDeque<SyncTask> = std::collections::VecDeque::new();
        let mut i: usize = 0;
        while i < plan.tasks.len()
            invariant
                i <= plan.tasks@.len(),
                tasks@.len() == i,
                forall|j: int| 0 <= j < i ==> same_task(#[trigger] tasks@[j], plan.tasks@[j]),
            decreases plan.tasks@.len() - i,
        {
            let ghost before = tasks@;
            let t = plan.tasks[i].clone();
            tasks.push_back(t);
            assert(tasks@[i as int] == t);
            assert(same_task(tasks@[i as int], plan.tasks@[i as int]));
            assert forall|j: int| 0 <= j < i implies #[trigger] tasks@[j] == before[j] by {}
            i = i + 1;
        }
        let n = plan.tasks.len();
        let ghost built = tasks@;
        builder = builder.with_tasks(tasks).with_initial_size(n);
        if let Some(q) = plan.sync_config.sync_rate_quota {
            builder = builder.with_max_retry(q.max_retry);
        }
        assert(builder.tasks == Some(tasks));
    }
    builder.build()
}

/// A queue of no tasks with the given limiter.
pub fn new_empty_queue(
    rate_limiter: WebRequestRateLimiter,
    max_retry: Option<u32>,
    sync_plan_id: Id,
) -> (r: SyncTaskQueue)
    ensures
        r.tasks@.len() == 0,
        r.rate_limiter == Some(rate_limiter),
        r.max_retry == max_retry,
        r.retries_left == max_retry,
        r.sync_plan_id == sync_plan_id,
        r.status == QueueStatus::Initialized,
        r.initial_size == 0,
{
    SyncTaskQueue::new(Vec::new(), Some(rate_limiter), max_retry, sync_plan_id)
}

/// A queue of no tasks without a rate limiter.
pub fn new_empty_limitless_queue(max_retry: Option<u32>, sync_plan_id: Id) -> (r: SyncTaskQueue)
    ensures
        r.tasks@.len() == 0,
        r.rate_limiter is None,
        r.max_retry == max_retry,
        r.retries_left == max_retry,
        r.sync_plan_id == sync_plan_id,
        r.status == QueueStatus::Initialized,
        r.initial_size == 0,
{
    SyncTaskQueue::new(Vec::new(), None, max_retry, sync_plan_id)
}

/// Tasks come out of a sending queue in the order they went in: after a
/// task is put at the back of a queue that holds others, a request that
/// the queue serves without a limiter, or with one that allows it, gets the
/// task that was first, and the others keep their order, the new one last.
pub proof fn law_queue_first_in_first_out(
    queue: SyncTaskQueue,
    earlier: Seq<SyncTask>,
    pushed: SyncTask,
    r: Result<SyncTask, QueueError>,
    after: SyncTaskQueue,
)
    requires
        queue.tasks@ == earlier.push(pushed),
        earlier.len() > 0,
        queue.status == QueueStatus::SendingTasks,
        queue.rate_limiter matches Some(l) ==> l@.proceed_status() is Allowed,
        queue.pop_front_ok(r, &after),
    ensures
        r == Ok::<SyncTask, QueueError>(earlier[0]),
        after.tasks@ == earlier.drop_first().push(pushed),
{
    assert(earlier.push(pushed).drop_first() =~= earlier.drop_first().push(pushed));
}

/// A paused queue hands out nothing and stays as it was; once resumed, with
/// its tasks as they were, it hands out its first task again.
pub proof fn law_paused_queue_waits_for_resume(
    paused: SyncTaskQueue,
    r: Result<SyncTask, QueueError>,
    after: SyncTaskQueue,
    resumed: SyncTaskQueue,
    r2: Result<SyncTask, QueueError>,
    after2: SyncTaskQueue,
)
    requires
        paused.status == QueueStatus::Paused,
        paused.pop_front_ok(r, &after),
        resumed.status == QueueStatus::SendingTasks,
        resumed.tasks@ == paused.tasks@,
        resumed.rate_limiter is None,
        paused.tasks@.len() > 0,
        resumed.pop_front_ok(r2, &after2),
    ensures
        r matches Err(QueueError::QueuePaused(_)),
        after.unchanged_from(&paused),
        r2 == Ok::<SyncTask, QueueError>(paused.tasks@[0]),
{
}

} // verus!
