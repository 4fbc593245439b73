//! Synchronization tasks and plans: what a worker is asked to fetch, and the
//! plan a group of tasks belongs to.

use vstd::prelude::*;
use crate::ids::Id;

verus! {

/// How a task's data is requested from the remote.
#[derive(Debug, Clone, Copy, PartialEq, Eq, Structural)]
pub enum RequestMethod {
    Get,
    Post,
    Websocket,
}

/// A copy of a list of header name/value pairs.
pub fn clone_headers(headers: &Vec<(String, String)>) -> (r: Vec<(String, String)>)
    ensures
        r@ == headers@,
{
    let mut r: Vec<(String, String)> = Vec::new();
    let mut i: usize = 0;
    while i < headers.len()
        invariant
            i <= headers.len(),
            r@ == headers@.take(i as int),
        decreases headers.len() - i,
    {
        let (name, value) = &headers[i];
        r.push((name.clone(), value.clone()));
        i = i + 1;
        assert(r@ == headers@.take(i as int));
    }
    assert(headers@.take(headers.len() as int) == headers@);
    r
}

/// A copy of an optional string.
pub fn clone_opt_string(s: &Option<String>) -> (r: Option<String>)
    ensures
        r == *s,
{
    match s {
        Some(v) => Some(v.clone()),
        None => None,
    }
}

/// What a task asks for: the endpoint, the request method, the headers and
/// the payload (JSON text).
#[derive(Debug)]
pub struct TaskSpecification {
    pub request_endpoint: String,
    pub request_method: RequestMethod,
    pub request_header: Vec<(String, String)>,
    pub payload: Option<String>,
}

impl TaskSpecification {
    /// A task specification made of its parts.
    pub fn new(
        request_endpoint: String,
        request_method: RequestMethod,
        request_header: Vec<(String, String)>,
        payload: Option<String>,
    ) -> (r: TaskSpecification)
        ensures
            r.request_endpoint == request_endpoint,
            r.request_method == request_method,
            r.request_header == request_header,
            r.payload == payload,
    {
        TaskSpecification { request_endpoint, request_method, request_header, payload }
    }
}

impl Clone for TaskSpecification {
    fn clone(&self) -> (r: Self)
        ensures
            r.request_endpoint == self.request_endpoint,
            r.request_method == self.request_method,
            r.request_header@ == self.request_header@,
            r.payload == self.payload,
    {
        TaskSpecification {
            request_endpoint: self.request_endpoint.clone(),
            request_method: self.request_method,
            request_header: clone_headers(&self.request_header),
            payload: clone_opt_string(&self.payload),
        }
    }
}

/// Where a task is in its life.
#[derive(Debug, Clone, Copy, PartialEq, Eq, Structural)]
pub enum TaskStatus {
    Pending,
    Running,
    Finished,
    Failed,
}

/// One unit of work: a request to send for a sync plan, and what came of it.
#[derive(Debug)]
pub struct SyncTask {
    pub id: Id,
    pub sync_plan_id: Option<Id>,
    pub spec: TaskSpecification,
    pub status: TaskStatus,
    pub start_time: Option<i64>,
    pub end_time: Option<i64>,
    pub result: Option<String>,
    pub result_message: Option<String>,
}

impl SyncTask {
    /// A pending task of a plan.
    pub fn new(id: Id, sync_plan_id: Option<Id>, spec: TaskSpecification) -> (r: SyncTask)
        ensures
            r.id == id,
            r.sync_plan_id == sync_plan_id,
            r.spec == spec,
            r.status == TaskStatus::Pending,
            r.start_time is None,
            r.end_time is None,
            r.result is None,
            r.result_message is None,
    {
        SyncTask {
            id,
            sync_plan_id,
            spec,
            status: TaskStatus::Pending,
            start_time: None,
            end_time: None,
            result: None,
            result_message: None,
        }
    }

    /// Marks the task as started at `time`.
    pub fn start(&mut self, time: i64)
        ensures
            *final(self) == (SyncTask { status: TaskStatus::Running, start_time: Some(time), ..*old(self) }),
    {
        self.status = TaskStatus::Running;
        self.start_time = Some(time);
    }

    /// Marks the task as finished at `time`.
    pub fn finished(&mut self, time: i64)
        ensures
            *final(self) == (SyncTask { status: TaskStatus::Finished, end_time: Some(time), ..*old(self) }),
    {
        self.status = TaskStatus::Finished;
        self.end_time = Some(time);
    }

    /// Marks the task as failed at `time`.
    pub fn failed(&mut self, time: i64)
        ensures
            *final(self) == (SyncTask { status: TaskStatus::Failed, end_time: Some(time), ..*old(self) }),
    {
        self.status = TaskStatus::Failed;
        self.end_time = Some(time);
    }

    /// Records the data the task fetched.
    pub fn set_result(&mut self, result: Option<String>)
        ensures
            *final(self) == (SyncTask { result, ..*old(self) }),
    {
        self.result = result;
    }

    /// Records a message on how the task went.
    pub fn set_result_message(&mut self, message: Option<String>)
        ensures
            *final(self) == (SyncTask { result_message: message, ..*old(self) }),
    {
        self.result_message = message;
    }
}

impl Clone for SyncTask {
    fn clone(&self) -> (r: Self)
        ensures
            r.id == self.id,
            r.sync_plan_id == self.sync_plan_id,
            r.spec.request_endpoint == self.spec.request_endpoint,
            r.spec.request_method == self.spec.request_method,
            r.spec.request_header@ == self.spec.request_header@,
            r.spec.payload == self.spec.payload,
            r.status == self.status,
            r.start_time == self.start_time,
            r.end_time == self.end_time,
            r.result == self.result,
            r.result_message == self.result_message,
    {
        SyncTask {
            id: self.id,
            sync_plan_id: self.sync_plan_id,
            spec: self.spec.clone(),
            status: self.status,
            start_time: self.start_time,
            end_time: self.end_time,
            result: clone_opt_string(&self.result),
            result_message: clone_opt_string(&self.result_message),
        }
    }
}

/// A worker's request for the next task of a plan.
#[derive(Debug, Clone, Copy, PartialEq, Eq, Structural)]
pub struct GetTaskRequest {
    pub sync_plan_id: Id,
}

impl GetTaskRequest {
    /// A request for the next task of `plan_id`.
    pub fn new(plan_id: Id) -> (r: GetTaskRequest)
        ensures
            r.sync_plan_id == plan_id,
    {
        GetTaskRequest { sync_plan_id: plan_id }
    }

    /// The plan whose task is requested.
    pub fn sync_plan_id(&self) -> (r: Id)
        ensures
            r == self.sync_plan_id,
    {
        self.sync_plan_id
    }

    /// Changes the plan whose task is requested.
    pub fn set_sync_plan_id(&mut self, plan_id: Id)
        ensures
            final(self).sync_plan_id == plan_id,
    {
        self.sync_plan_id = plan_id;
    }
}

impl Default for GetTaskRequest {
    fn default() -> (r: Self)
        ensures
            r.sync_plan_id == 0,
    {
        GetTaskRequest { sync_plan_id: 0 }
    }
}

/// The rate limiter implementations a plan can ask for.
#[derive(Debug, Clone, Copy, PartialEq, Eq, Structural)]
pub enum RateLimiterImpls {
    WebRequestRateLimiter,
}

/// The request quota a plan's remote imposes.
#[derive(Debug, Clone, Copy, PartialEq, Eq, Structural)]
pub struct RateQuota {
    pub use_impl: RateLimiterImpls,
    pub max_line_per_request: u32,
    pub daily_limit: u32,
    pub cooldown_seconds: u32,
    pub max_retry: u32,
}

/// How a plan is synchronized.
#[derive(Debug, Clone, Copy, PartialEq, Eq, Structural)]
pub struct SyncConfig {
    pub sync_rate_quota: Option<RateQuota>,
}

/// The limits asked for when a rate limiter is created.
#[derive(Debug, Clone, Copy, PartialEq, Eq, Structural)]
pub struct CreateRateLimiterRequest {
    pub max_request: u32,
    pub max_daily_request: Option<u32>,
    pub cooldown: Option<u32>,
}

/// A plan: the tasks to run for one dataset, and how to run them.
pub struct SyncPlan {
    pub id: Id,
    pub tasks: Vec<SyncTask>,
    pub sync_config: SyncConfig,
}

} // verus!
