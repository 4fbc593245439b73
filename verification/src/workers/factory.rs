//! How sync workers are made: one worker per set of channels, and a builder
//! of web request workers.

use vstd::prelude::*;
use crate::factory::Builder;
use crate::ids::Id;
use super::http_worker::WebAPISyncWorker;
use super::websocket_worker::WebsocketSyncWorker;
use super::worker_traits::WorkerState;

verus! {

/// The smallest of five counts.
pub open spec fn min5(a: int, b: int, c: int, d: int, e: int) -> int {
    let ab = if a <= b {
        a
    } else {
        b
    };
    let cd = if c <= d {
        c
    } else {
        d
    };
    let abcd = if ab <= cd {
        ab
    } else {
        cd
    };
    if abcd <= e {
        abcd
    } else {
        e
    }
}

/// Up to `n` websocket workers, the i-th with the i-th channel of each
/// list, as far as every list goes; each waits, with no plan.
pub fn create_websocket_sync_workers<TRS, TTR, SDS, ES>(
    n: usize,
    task_request_senders: Vec<TRS>,
    todo_task_receivers: Vec<TTR>,
    data_senders: Vec<SDS>,
    error_senders: Vec<ES>,
) -> (r: Vec<WebsocketSyncWorker<TRS, TTR, SDS, ES>>)
    ensures
        r@.len() == min5(
            n as int,
            task_request_senders@.len() as int,
            todo_task_receivers@.len() as int,
            data_senders@.len() as int,
            error_senders@.len() as int,
        ),
        forall|i: int|
            0 <= i < r@.len() ==> {
                &&& (#[trigger] r@[i]).task_request_sender == Some(task_request_senders@[i])
                &&& r@[i].todo_task_receiver == Some(todo_task_receivers@[i])
                &&& r@[i].data_sender == Some(data_senders@[i])
                &&& r@[i].error_sender == Some(error_senders@[i])
                &&& r@[i].state == WorkerState::Idle
                &&& r@[i].assigned_sync_plan_id is None
            },
{
    let ghost a0 = task_request_senders@;
    let ghost b0 = todo_task_receivers@;
    let ghost c0 = data_senders@;
    let ghost d0 = error_senders@;
    let mut a = task_request_senders;
    let mut b = todo_task_receivers;
    let mut c = data_senders;
    let mut d = error_senders;
    let mut count = n;
    if a.len() < count {
        count = a.len();
    }
    if b.len() < count {
        count = b.len();
    }
    if c.len() < count {
        count = c.len();
    }
    if d.len() < count {
        count = d.len();
    }
    assert(count == min5(n as int, a0.len() as int, b0.len() as int, c0.len() as int, d0.len() as int));
    let mut workers: Vec<WebsocketSyncWorker<TRS, TTR, SDS, ES>> = Vec::new();
    let mut i: usize = 0;
    while i < count
        invariant
            i <= count,
            count <= a0.len(),
            count <= b0.len(),
            count <= c0.len(),
            count <= d0.len(),
            a@ == a0.skip(i as int),
            b@ == b0.skip(i as int),
            c@ == c0.skip(i as int),
            d@ == d0.skip(i as int),
            workers@.len() == i,
            forall|j: int|
                0 <= j < i ==> {
                    &&& (#[trigger] workers@[j]).task_request_sender == Some(a0[j])
                    &&& workers@[j].todo_task_receiver == Some(b0[j])
                    &&& workers@[j].data_sender == Some(c0[j])
                    &&& workers@[j].error_sender == Some(d0[j])
                    &&& workers@[j].state == WorkerState::Idle
                    &&& workers@[j].assigned_sync_plan_id is None
                },
        decreases count - i,
    {
        let x = a.remove(0);
        let y = b.remove(0);
        let z = c.remove(0);
        let w = d.remove(0);
        proof {
            assert(a@ =~= a0.skip(i as int + 1));
            assert(b@ =~= b0.skip(i as int + 1));
            assert(c@ =~= c0.skip(i as int + 1));
            assert(d@ =~= d0.skip(i as int + 1));
        }
        workers.push(WebsocketSyncWorker::new(x, y, z, w));
        i = i + 1;
    }
    workers
}

/// Up to `n` web request workers, the i-th with the i-th channel of each
/// list, as far as every list goes; each waits, with no plan.
pub fn create_web_api_sync_workers<TRS, TTR, CTS, FTS>(
    n: usize,
    task_request_senders: Vec<TRS>,
    todo_task_receivers: Vec<TTR>,
    completed_task_senders: Vec<CTS>,
    failed_task_senders: Vec<FTS>,
) -> (r: Vec<WebAPISyncWorker<TRS, TTR, CTS, FTS>>)
    ensures
        r@.len() == min5(
            n as int,
            task_request_senders@.len() as int,
            todo_task_receivers@.len() as int,
            completed_task_senders@.len() as int,
            failed_task_senders@.len() as int,
        ),
        forall|i: int|
            0 <= i < r@.len() ==> {
                &&& (#[trigger] r@[i]).task_request_sender == task_request_senders@[i]
                &&& r@[i].todo_task_receiver == todo_task_receivers@[i]
                &&& r@[i].completed_task_sender == completed_task_senders@[i]
                &&& r@[i].failed_task_sender == failed_task_senders@[i]
                &&& r@[i].state == WorkerState::Idle
                &&& r@[i].assigned_sync_plan_id is None
            },
{
    let ghost a0 = task_request_senders@;
    let ghost b0 = todo_task_receivers@;
    let ghost c0 = completed_task_senders@;
    let ghost d0 = failed_task_senders@;
    let mut a = task_request_senders;
    let mut b = todo_task_receivers;
    let mut c = completed_task_senders;
    let mut d = failed_task_senders;
    let mut count = n;
    if a.len() < count {
        count = a.len();
    }
    if b.len() < count {
        count = b.len();
    }
    if c.len() < count {
        count = c.len();
    }
    if d.len() < count {
        count = d.len();
    }
    assert(count == min5(n as int, a0.len() as int, b0.len() as int, c0.len() as int, d0.len() as int));
    let mut workers: Vec<WebAPISyncWorker<TRS, TTR, CTS, FTS>> = Vec::new();
    let mut i: usize = 0;
    while i < count
        invariant
            i <= count,
            count <= a0.len(),
            count <= b0.len(),
            count <= c0.len(),
            count <= d0.len(),
            a@ == a0.skip(i as int),
            b@ == b0.skip(i as int),
            c@ == c0.skip(i as int),
            d@ == d0.skip(i as int),
            workers@.len() == i,
            forall|j: int|
                0 <= j < i ==> {
                    &&& (#[trigger] workers@[j]).task_request_sender == a0[j]
                    &&& workers@[j].todo_task_receiver == b0[j]
                    &&& workers@[j].completed_task_sender == c0[j]
                    &&& workers@[j].failed_task_sender == d0[j]
                    &&& workers@[j].state == WorkerState::Idle
                    &&& workers@[j].assigned_sync_plan_id is None
                },
        decreases count - i,
    {
        let x = a.remove(0);
        let y = b.remove(0);
        let z = c.remove(0);
        let w = d.remove(0);
        proof {
            assert(a@ =~= a0.skip(i as int + 1));
            assert(b@ =~= b0.skip(i as int + 1));
            assert(c@ =~= c0.skip(i as int + 1));
            assert(d@ =~= d0.skip(i as int + 1));
        }
        workers.push(WebAPISyncWorker::new(x, y, z, w));
        i = i + 1;
    }
    workers
}

/// The parts of a web request worker, as far as they were given.
pub struct WebAPISyncWorkerBuilder<TRS, TTR, CTS, FTS> {
    pub id: Option<Id>,
    pub state: Option<WorkerState>,
    pub task_request_sender: Option<TRS>,
    pub todo_task_receiver: Option<TTR>,
    pub completed_task_sender: Option<CTS>,
    pub failed_task_sender: Option<FTS>,
    pub assigned_sync_plan_id: Option<Id>,
}

impl<TRS, TTR, CTS, FTS> WebAPISyncWorkerBuilder<TRS, TTR, CTS, FTS> {
    pub fn state(self, state: WorkerState) -> (r: Self)
        ensures
            r == (WebAPISyncWorkerBuilder { state: Some(state), ..self }),
    {
        WebAPISyncWorkerBuilder { state: Some(state), ..self }
    }

    pub fn task_request_sender(self, sender: TRS) -> (r: Self)
        ensures
            r == (WebAPISyncWorkerBuilder { task_request_sender: Some(sender), ..self }),
    {
        WebAPISyncWorkerBuilder { task_request_sender: Some(sender), ..self }
    }

    pub fn todo_task_receiver(self, receiver: TTR) -> (r: Self)
        ensures
            r == (WebAPISyncWorkerBuilder { todo_task_receiver: Some(receiver), ..self }),
    {
        WebAPISyncWorkerBuilder { todo_task_receiver: Some(receiver), ..self }
    }

    pub fn completed_task_sender(self, sender: CTS) -> (r: Self)
        ensures
            r == (WebAPISyncWorkerBuilder { completed_task_sender: Some(sender), ..self }),
    {
        WebAPISyncWorkerBuilder { completed_task_sender: Some(sender), ..self }
    }

    pub fn failed_task_sender(self, sender: FTS) -> (r: Self)
        ensures
            r == (WebAPISyncWorkerBuilder { failed_task_sender: Some(sender), ..self }),
    {
        WebAPISyncWorkerBuilder { failed_task_sender: Some(sender), ..self }
    }

    pub fn assigned_sync_plan_id(self, sync_plan_id: Id) -> (r: Self)
        ensures
            r == (WebAPISyncWorkerBuilder { assigned_sync_plan_id: Some(sync_plan_id), ..self }),
    {
        WebAPISyncWorkerBuilder { assigned_sync_plan_id: Some(sync_plan_id), ..self }
    }
}

impl<TRS, TTR, CTS, FTS> Builder for WebAPISyncWorkerBuilder<TRS, TTR, CTS, FTS> {
    type Product = WebAPISyncWorker<TRS, TTR, CTS, FTS>;

    /// The four channels are given.
    open spec fn ready(&self) -> bool {
        &&& self.task_request_sender is Some
        &&& self.todo_task_receiver is Some
        &&& self.completed_task_sender is Some
        &&& self.failed_task_sender is Some
    }

    /// A builder of a waiting worker with a fresh random id and nothing
    /// else.
    fn new() -> (r: Self)
        ensures
            r.id is Some,
            r.state == Some(WorkerState::Idle),
            r.task_request_sender is None,
            r.todo_task_receiver is None,
            r.completed_task_sender is None,
            r.failed_task_sender is None,
            r.assigned_sync_plan_id is None,
    {
        WebAPISyncWorkerBuilder {
            id: Some(crate::ids::new_id()),
            state: Some(WorkerState::default()),
            task_request_sender: None,
            todo_task_receiver: None,
            completed_task_sender: None,
            failed_task_sender: None,
            assigned_sync_plan_id: None,
        }
    }

    /// A new worker with the given channels; the id, state and plan set
    /// here are not used: the worker is new, waiting, with no plan.
    fn build(self) -> (r: WebAPISyncWorker<TRS, TTR, CTS, FTS>)
        ensures
            r.task_request_sender == self.task_request_sender->0,
            r.todo_task_receiver == self.todo_task_receiver->0,
            r.completed_task_sender == self.completed_task_sender->0,
            r.failed_task_sender == self.failed_task_sender->0,
            r.state == WorkerState::Idle,
            r.assigned_sync_plan_id is None,
    {
        match (self.task_request_sender, self.todo_task_receiver, self.completed_task_sender, self.failed_task_sender) {
            (Some(a), Some(b), Some(c), Some(d)) => WebAPISyncWorker::new(a, b, c, d),
            _ => vstd::pervasive::unreached(),
        }
    }
}

/// The setters of a websocket worker's builder.
pub trait WebsocketWorkerBuilder<TRS, TTR, SDS, ES>: Sized {
    fn with_task_request_sender(self, sender: TRS) -> Self;

    fn with_todo_task_receiver(self, receiver: TTR) -> Self;

    fn with_data_sender(self, sender: SDS) -> Self;

    fn with_error_sender(self, sender: ES) -> Self;

    fn with_assigned_sync_plan_id(self, id: Id) -> Self;
}

/// The parts of a websocket worker, as far as they were given.
pub struct WebsocketSyncWorkerBuilder<TRS, TTR, SDS, ES> {
    pub id: Option<Id>,
    pub state: Option<WorkerState>,
    pub task_request_sender: Option<TRS>,
    pub todo_task_receiver: Option<TTR>,
    pub data_sender: Option<SDS>,
    pub error_sender: Option<ES>,
    pub assigned_sync_plan_id: Option<Id>,
}

impl<TRS, TTR, SDS, ES> WebsocketWorkerBuilder<TRS, TTR, SDS, ES> for WebsocketSyncWorkerBuilder<TRS, TTR, SDS, ES> {
    fn with_task_request_sender(self, sender: TRS) -> (r: Self)
        ensures
            r == (WebsocketSyncWorkerBuilder { task_request_sender: Some(sender), ..self }),
    {
        WebsocketSyncWorkerBuilder { task_request_sender: Some(sender), ..self }
    }

    fn with_todo_task_receiver(self, receiver: TTR) -> (r: Self)
        ensures
            r == (WebsocketSyncWorkerBuilder { todo_task_receiver: Some(receiver), ..self }),
    {
        WebsocketSyncWorkerBuilder { todo_task_receiver: Some(receiver), ..self }
    }

    fn with_data_sender(self, sender: SDS) -> (r: Self)
        ensures
            r == (WebsocketSyncWorkerBuilder { data_sender: Some(sender), ..self }),
    {
        WebsocketSyncWorkerBuilder { data_sender: Some(sender), ..self }
    }

    fn with_error_sender(self, sender: ES) -> (r: Self)
        ensures
            r == (WebsocketSyncWorkerBuilder { error_sender: Some(sender), ..self }),
    {
        WebsocketSyncWorkerBuilder { error_sender: Some(sender), ..self }
    }

    fn with_assigned_sync_plan_id(self, sync_plan_id: Id) -> (r: Self)
        ensures
            r == (WebsocketSyncWorkerBuilder { assigned_sync_plan_id: Some(sync_plan_id), ..self }),
    {
        WebsocketSyncWorkerBuilder { assigned_sync_plan_id: Some(sync_plan_id), ..self }
    }
}

impl<TRS, TTR, SDS, ES> Builder for WebsocketSyncWorkerBuilder<TRS, TTR, SDS, ES> {
    type Product = WebsocketSyncWorker<TRS, TTR, SDS, ES>;

    /// The id and the state are given; the channels may be missing.
    open spec fn ready(&self) -> bool {
        &&& self.id is Some
        &&& self.state is Some
    }

    /// A builder of a waiting worker with a fresh random id and nothing
    /// else.
    fn new() -> (r: Self)
        ensures
            r.id is Some,
            r.state == Some(WorkerState::Idle),
            r.task_request_sender is None,
            r.todo_task_receiver is None,
            r.data_sender is None,
            r.error_sender is None,
            r.assigned_sync_plan_id is None,
    {
        WebsocketSyncWorkerBuilder {
            id: Some(crate::ids::new_id()),
            state: Some(WorkerState::default()),
            task_request_sender: None,
            todo_task_receiver: None,
            data_sender: None,
            error_sender: None,
            assigned_sync_plan_id: None,
        }
    }

    /// The worker of exactly the parts given.
    fn build(self) -> (r: WebsocketSyncWorker<TRS, TTR, SDS, ES>)
        ensures
            r.id == self.id->0,
            r.state == self.state->0,
            r.task_request_sender == self.task_request_sender,
            r.todo_task_receiver == self.todo_task_receiver,
            r.data_sender == self.data_sender,
            r.error_sender == self.error_sender,
            r.assigned_sync_plan_id == self.assigned_sync_plan_id,
    {
        match (self.id, self.state) {
            (Some(id), Some(state)) => WebsocketSyncWorker {
                id,
                state,
                task_request_sender: self.task_request_sender,
                todo_task_receiver: self.todo_task_receiver,
                data_sender: self.data_sender,
                error_sender: self.error_sender,
                assigned_sync_plan_id: self.assigned_sync_plan_id,
            },
            _ => vstd::pervasive::unreached(),
        }
    }
}

/// A websocket worker made through its builder with the given channels:
/// waiting, with no plan.
pub fn create_websocket_worker<TRS, TTR, SDS, ES>(
    task_request_sender: TRS,
    todo_task_receiver: TTR,
    data_sender: SDS,
    error_sender: ES,
) -> (r: WebsocketSyncWorker<TRS, TTR, SDS, ES>)
    ensures
        r.task_request_sender == Some(task_request_sender),
        r.todo_task_receiver == Some(todo_task_receiver),
        r.data_sender == Some(data_sender),
        r.error_sender == Some(error_sender),
        r.state == WorkerState::Idle,
        r.assigned_sync_plan_id is None,
{
    let builder: WebsocketSyncWorkerBuilder<TRS, TTR, SDS, ES> = WebsocketSyncWorkerBuilder::new();
    builder.with_task_request_sender(task_request_sender).with_todo_task_receiver(todo_task_receiver).with_data_sender(
        data_sender,
    ).with_error_sender(error_sender).build()
}

/// A web request worker made through its builder with the given channels.
pub fn create_http_worker<TRS, TTR, CTS, FTS>(
    task_request_sender: TRS,
    todo_task_receiver: TTR,
    completed_task_sender: CTS,
    failed_task_sender: FTS,
) -> (r: WebAPISyncWorker<TRS, TTR, CTS, FTS>)
    ensures
        r.task_request_sender == task_request_sender,
        r.todo_task_receiver == todo_task_receiver,
        r.completed_task_sender == completed_task_sender,
        r.failed_task_sender == failed_task_sender,
        r.state == WorkerState::Idle,
        r.assigned_sync_plan_id is None,
{
    let builder: WebAPISyncWorkerBuilder<TRS, TTR, CTS, FTS> = WebAPISyncWorkerBuilder::new();
    builder.task_request_sender(task_request_sender).todo_task_receiver(todo_task_receiver).completed_task_sender(
        completed_task_sender,
    ).failed_task_sender(failed_task_sender).build()
}

} // verus!
