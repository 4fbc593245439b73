//! The supervisor: it keeps track of which worker holds which plan, and
//! decides which commands go to the workers and to the task manager.
//!
//! The workers themselves, and the channels to them, are run outside; this
//! module decides what each command and each response does.

use vstd::prelude::*;
use std::collections::{HashMap, HashSet};
use vstd::std_specs::iter::IteratorSpec;
use crate::ids::{Id, new_id};
use super::commands::{
    ComponentState, SupervisorCommand, SupervisorResponse, TaskManagerCommand, TaskManagerResponse,
    WorkerCommand, WorkerResponse,
};

verus! {

broadcast use vstd::std_specs::hash::group_hash_axioms;

/// What the supervisor knows of a worker: free, picked for a plan, holding
/// a plan, or syncing one.
#[derive(Debug, Clone, Copy, PartialEq, Eq, Structural)]
pub enum WorkerAssignmentState {
    Idle,
    Ready,
    PlanAssigned(Id),
    Running(Id),
}

/// What the supervisor does: a command to a worker, a command to the task
/// manager, or an answer to the engine.
#[derive(Debug)]
pub enum SupervisorAction {
    ToWorker { worker_id: Id, command: WorkerCommand },
    ToTaskManager(TaskManagerCommand),
    Respond(SupervisorResponse),
}

/// The worker a command goes to.
pub open spec fn action_worker(a: SupervisorAction) -> Id {
    match a {
        SupervisorAction::ToWorker { worker_id, .. } => worker_id,
        _ => 0,
    }
}

/// `acts` sends each worker of `targets` its command `cmd`, once, and
/// sends nothing else.
pub open spec fn once_to_each(
    acts: Seq<SupervisorAction>,
    targets: Set<Id>,
    cmd: spec_fn(Id) -> WorkerCommand,
) -> bool {
    &&& forall|k: int|
        0 <= k < acts.len() ==> #[trigger] acts[k] == (SupervisorAction::ToWorker {
            worker_id: action_worker(acts[k]),
            command: cmd(action_worker(acts[k])),
        }) && targets.contains(action_worker(acts[k]))
    &&& forall|w: Id|
        #[trigger] targets.contains(w) ==> exists|k: int| 0 <= k < acts.len() && action_worker(#[trigger] acts[k]) == w
    &&& forall|k1: int, k2: int|
        0 <= k1 < k2 < acts.len() ==> action_worker(#[trigger] acts[k1]) != action_worker(#[trigger] acts[k2])
}

/// A state that holds `plan_id`.
pub open spec fn holds_plan(st: WorkerAssignmentState, plan_id: Id) -> bool {
    st == WorkerAssignmentState::PlanAssigned(plan_id) || st == WorkerAssignmentState::Running(plan_id)
}

/// The plan a state holds, if any.
pub open spec fn held_plan(st: WorkerAssignmentState) -> Option<Id> {
    match st {
        WorkerAssignmentState::PlanAssigned(p) => Some(p),
        WorkerAssignmentState::Running(p) => Some(p),
        _ => None,
    }
}

/// The assignments after a worker's response.
pub open spec fn after_worker_response(
    m: Map<Id, WorkerAssignmentState>,
    response: WorkerResponse,
) -> Map<Id, WorkerAssignmentState> {
    match response {
        WorkerResponse::ShutdownComplete(w) => m.remove(w),
        WorkerResponse::PlanAssigned { worker_id, plan_id, sync_started } => m.insert(
            worker_id,
            if sync_started {
                WorkerAssignmentState::Running(plan_id)
            } else {
                WorkerAssignmentState::PlanAssigned(plan_id)
            },
        ),
        WorkerResponse::PlanCancelled { worker_id, .. } => if m.contains_key(worker_id)
            && held_plan(m[worker_id]) is Some {
            m.insert(worker_id, WorkerAssignmentState::Idle)
        } else {
            m
        },
        WorkerResponse::StartOk { worker_id, plan_id } => if m.contains_key(worker_id) && m[worker_id]
            == WorkerAssignmentState::PlanAssigned(plan_id) {
            m.insert(worker_id, WorkerAssignmentState::Running(plan_id))
        } else {
            m
        },
        WorkerResponse::StartFailed { .. } => m,
    }
}

/// What the supervisor tells the engine of a worker's response.
pub open spec fn answer_to_worker_response(response: WorkerResponse) -> Option<SupervisorResponse> {
    match response {
        WorkerResponse::PlanAssigned { plan_id, .. } => Some(SupervisorResponse::PlanAssigned { plan_id }),
        WorkerResponse::PlanCancelled { worker_id, plan_id } => Some(
            SupervisorResponse::PlanCancelled { worker_id, plan_id },
        ),
        _ => None,
    }
}

/// A plan's assignment: when some worker is free, one free worker `w` is
/// marked picked and the task manager is asked for the plan's task channel
/// on its behalf; when none is, nothing happens.
pub open spec fn assign_outcome(
    before: Map<Id, WorkerAssignmentState>,
    after: Map<Id, WorkerAssignmentState>,
    plan_id: Id,
    start_immediately: bool,
    r: Seq<SupervisorAction>,
) -> bool {
    &&& r.len() <= 1
    &&& (exists|w: Id| before.contains_key(w) && #[trigger] before[w] == WorkerAssignmentState::Idle) <==> r.len()
        == 1
    &&& r.len() == 0 ==> after == before
    &&& r.len() == 1 ==> (r[0] matches SupervisorAction::ToTaskManager(
        TaskManagerCommand::RequestTaskReceiver { plan_id: p, worker_id: w, start_immediately: s },
    ) && p == plan_id && s == start_immediately && before.contains_key(w) && before[w]
        == WorkerAssignmentState::Idle && after == before.insert(w, WorkerAssignmentState::Ready))
}

/// A plan's cancellation: at most one command, `CancelPlan` to a worker
/// that holds the plan and can be commanded; when every worker can be
/// commanded, one goes out exactly when some worker holds the plan.
pub open spec fn cancel_outcome(s: Supervisor, plan_id: Id, r: Seq<SupervisorAction>) -> bool {
    &&& r.len() <= 1
    &&& r.len() == 1 ==> (r[0] matches SupervisorAction::ToWorker { worker_id: w, command: c } && c
        == WorkerCommand::CancelPlan(plan_id) && s.plan_holder(w, plan_id) && s.worker_ids@.contains(w))
    &&& s.wf() ==> ((exists|w: Id| #[trigger] s.plan_holder(w, plan_id)) <==> r.len() == 1)
}

/// Starting all: each worker holding a plan not yet started is told to
/// start, once, and then the engine is told.
pub open spec fn start_all_outcome(s: Supervisor, r: Seq<SupervisorAction>) -> bool {
    &&& r.len() >= 1
    &&& r.last() == SupervisorAction::Respond(SupervisorResponse::AllStarted)
    &&& once_to_each(r.drop_last(), s.assigned_workers(), |w: Id| WorkerCommand::StartSync)
}

/// Cancelling all: each worker holding a plan is told to cancel it, once,
/// and then the engine is told.
pub open spec fn cancel_all_outcome(s: Supervisor, r: Seq<SupervisorAction>) -> bool {
    &&& r.len() >= 1
    &&& r.last() == SupervisorAction::Respond(SupervisorResponse::AllCancelled)
    &&& once_to_each(r.drop_last(), s.holding_workers(), |w: Id| s.cancel_command(w))
}

/// The workers that a broadcast reaches, and what each is told.
#[derive(Debug, Clone, Copy, PartialEq, Eq, Structural)]
enum Broadcast {
    Shutdown,
    StartAssigned,
    CancelHeld,
}

spec fn reaches(sel: Broadcast, st: Option<WorkerAssignmentState>) -> bool {
    match sel {
        Broadcast::Shutdown => true,
        Broadcast::StartAssigned => st matches Some(WorkerAssignmentState::PlanAssigned(_)),
        Broadcast::CancelHeld => (st matches Some(s) && held_plan(s) is Some),
    }
}

spec fn broadcast_command(sel: Broadcast, st: Option<WorkerAssignmentState>) -> WorkerCommand {
    match sel {
        Broadcast::Shutdown => WorkerCommand::Shutdown,
        Broadcast::StartAssigned => WorkerCommand::StartSync,
        Broadcast::CancelHeld => match st {
            Some(s) => match held_plan(s) {
                Some(p) => WorkerCommand::CancelPlan(p),
                None => WorkerCommand::Shutdown,
            },
            None => WorkerCommand::Shutdown,
        },
    }
}

/// The ids of a set, each once.
fn id_list(set: &HashSet<Id>) -> (ids: Vec<Id>)
    ensures
        ids@.no_duplicates(),
        ids@.to_set() == set@,
{
    let mut ids: Vec<Id> = Vec::new();
    let ghost keys = vstd::std_specs::hash::spec_hash_keys_iter(set).remaining();
    for k in it: set.iter()
        invariant
            it.seq() == keys,
            ids@ == it.seq().take(it.index() as int).unref(),
    {
        ids.push(*k);
        assert(ids@ =~= it.seq().take(it.index() as int + 1).unref());
    }
    assert(keys.take(keys.len() as int) =~= keys);
    ids
}

/// The ids of a map's keys, each once.
fn key_list(map: &HashMap<Id, WorkerAssignmentState>) -> (ids: Vec<Id>)
    ensures
        ids@.no_duplicates(),
        ids@.to_set() == map@.dom(),
{
    let mut ids: Vec<Id> = Vec::new();
    let ghost keys = vstd::std_specs::hash::spec_keys_iter(map).remaining();
    for k in it: map.keys()
        invariant
            it.seq() == keys,
            ids@ == it.seq().take(it.index() as int).unref(),
    {
        ids.push(*k);
        assert(ids@ =~= it.seq().take(it.index() as int + 1).unref());
    }
    assert(keys.take(keys.len() as int) =~= keys);
    ids
}

/// The supervisor's own state: the workers it can command, and what each
/// holds. The worker tasks and channels are held by whoever runs it.
#[derive(Debug)]
pub struct Supervisor {
    pub worker_ids: HashSet<Id>,
    pub worker_assignment: HashMap<Id, WorkerAssignmentState>,
    pub state: ComponentState,
    pub response_timeout_ms: u64,
}

impl Supervisor {
    /// What the supervisor knows of a worker, if it knows it.
    pub open spec fn assignment_of(&self, worker_id: Id) -> Option<WorkerAssignmentState> {
        if self.worker_assignment@.contains_key(worker_id) {
            Some(self.worker_assignment@[worker_id])
        } else {
            None
        }
    }

    /// The workers it can command that hold a plan not yet started.
    pub open spec fn assigned_workers(&self) -> Set<Id> {
        Set::new(
            |w: Id|
                self.worker_ids@.contains(w) && (self.assignment_of(w) matches Some(
                    WorkerAssignmentState::PlanAssigned(_),
                )),
        )
    }

    /// The workers it can command that hold a plan.
    pub open spec fn holding_workers(&self) -> Set<Id> {
        Set::new(
            |w: Id|
                self.worker_ids@.contains(w) && (self.assignment_of(w) matches Some(s) && held_plan(s) is Some),
        )
    }

    /// The command that cancels what a worker holds.
    pub open spec fn cancel_command(&self, w: Id) -> WorkerCommand {
        WorkerCommand::CancelPlan(held_plan(self.worker_assignment@[w])->0)
    }

    spec fn targets(&self, sel: Broadcast) -> Set<Id> {
        Set::new(|w: Id| self.worker_ids@.contains(w) && reaches(sel, self.assignment_of(w)))
    }

    /// A supervisor of `n_workers` workers (ten unless given), each with a
    /// fresh random id and free; its response timeout is 5 seconds unless
    /// given. The ids are returned too, so that the workers can be run.
    pub fn new(n_workers: Option<usize>, response_timeout_ms: Option<u64>) -> (r: (Supervisor, Vec<Id>))
        ensures
            r.1@.len() == (match n_workers {
                Some(n) => n,
                None => 10,
            }),
            r.0.worker_ids@ == r.1@.to_set(),
            r.0.worker_assignment@.dom() == r.1@.to_set(),
            forall|w: Id| #[trigger] r.0.worker_assignment@.contains_key(w) ==> r.0.worker_assignment@[w]
                == WorkerAssignmentState::Idle,
            r.0.state == ComponentState::Created,
            r.0.response_timeout_ms == (match response_timeout_ms {
                Some(t) => t,
                None => 5000,
            }),
    {
        let n = match n_workers {
            Some(n) => n,
            None => 10,
        };
        let mut ids: Vec<Id> = Vec::new();
        let mut worker_ids: HashSet<Id> = HashSet::new();
        let mut worker_assignment: HashMap<Id, WorkerAssignmentState> = HashMap::new();
        let mut i: usize = 0;
        while i < n
            invariant
                i <= n,
                ids@.len() == i,
                worker_ids@ == ids@.to_set(),
                worker_assignment@.dom() == ids@.to_set(),
                forall|w: Id| #[trigger] worker_assignment@.contains_key(w) ==> worker_assignment@[w]
                    == WorkerAssignmentState::Idle,
            decreases n - i,
        {
            let id = new_id();
            ids.push(id);
            worker_ids.insert(id);
            worker_assignment.insert(id, WorkerAssignmentState::Idle);
            proof {
                broadcast use vstd::seq_lib::group_seq_properties;
            }
            i = i + 1;
        }
        let timeout = match response_timeout_ms {
            Some(t) => t,
            None => 5000,
        };
        (Supervisor { worker_ids, worker_assignment, state: ComponentState::Created, response_timeout_ms: timeout }, ids)
    }

    /// The supervisor starts running.
    pub fn start(&mut self)
        ensures
            final(self).state == ComponentState::Running,
            final(self).worker_ids@ == old(self).worker_ids@,
            final(self).worker_assignment@ == old(self).worker_assignment@,
            final(self).response_timeout_ms == old(self).response_timeout_ms,
    {
        self.state = ComponentState::Running;
    }

    /// The supervisor stopped, so its loop ends.
    pub fn is_stopped(&self) -> (r: bool)
        ensures
            r == (self.state == ComponentState::Stopped),
    {
        self.state == ComponentState::Stopped
    }

    spec fn broadcast_to(&self, sel: Broadcast, w: Id) -> WorkerCommand {
        broadcast_command(sel, self.assignment_of(w))
    }

    /// One command to each worker that a broadcast reaches.
    fn command_each(&self, sel: Broadcast) -> (r: Vec<SupervisorAction>)
        ensures
            once_to_each(r@, self.targets(sel), |w: Id| self.broadcast_to(sel, w)),
    {
        let ghost targets = self.targets(sel);
        let ids = id_list(&self.worker_ids);
        let mut acts: Vec<SupervisorAction> = Vec::new();
        let ghost mut pos: Seq<int> = Seq::empty();
        let mut i: usize = 0;
        while i < ids.len()
            invariant
                i <= ids@.len(),
                ids@.no_duplicates(),
                ids@.to_set() == self.worker_ids@,
                targets == self.targets(sel),
                pos.len() == acts@.len(),
                forall|k: int|
                    0 <= k < acts@.len() ==> 0 <= #[trigger] pos[k] < i && ids@[pos[k]] == action_worker(acts@[k])
                        && acts@[k] == (SupervisorAction::ToWorker {
                        worker_id: action_worker(acts@[k]),
                        command: self.broadcast_to(sel, action_worker(acts@[k])),
                    }) && targets.contains(action_worker(acts@[k])),
                forall|k1: int, k2: int| 0 <= k1 < k2 < acts@.len() ==> #[trigger] pos[k1] < #[trigger] pos[k2],
                forall|j: int|
                    0 <= j < i && #[trigger] targets.contains(ids@[j]) ==> exists|k: int|
                        0 <= k < acts@.len() && action_worker(#[trigger] acts@[k]) == ids@[j],
            decreases ids@.len() - i,
        {
            let w = ids[i];
            assert(self.worker_ids@.contains(w)) by {
                assert(ids@.contains(w));
            }
            let st = self.worker_assignment.get(&w);
            let command: Option<WorkerCommand> = match sel {
                Broadcast::Shutdown => Some(WorkerCommand::Shutdown),
                Broadcast::StartAssigned => match st {
                    Some(WorkerAssignmentState::PlanAssigned(_)) => Some(WorkerCommand::StartSync),
                    _ => None,
                },
                Broadcast::CancelHeld => match st {
                    Some(WorkerAssignmentState::PlanAssigned(p)) => Some(WorkerCommand::CancelPlan(*p)),
                    Some(WorkerAssignmentState::Running(p)) => Some(WorkerCommand::CancelPlan(*p)),
                    _ => None,
                },
            };
            let ghost old_acts = acts@;
            let ghost old_pos = pos;
            match command {
                Some(c) => {
                    assert(targets.contains(w));
                    assert(c == self.broadcast_to(sel, w));
                    acts.push(SupervisorAction::ToWorker { worker_id: w, command: c });
                    proof {
                        pos = pos.push(i as int);
                        assert forall|k: int| 0 <= k < acts@.len() implies 0 <= #[trigger] pos[k] < i + 1
                            && ids@[pos[k]] == action_worker(acts@[k]) && acts@[k] == (SupervisorAction::ToWorker {
                            worker_id: action_worker(acts@[k]),
                            command: self.broadcast_to(sel, action_worker(acts@[k])),
                        }) && targets.contains(action_worker(acts@[k])) by {
                            if k < old_acts.len() {
                                assert(old_pos[k] == pos[k]);
                                assert(old_acts[k] == acts@[k]);
                            }
                        }
                        assert forall|j: int|
                            0 <= j < i + 1 && #[trigger] targets.contains(ids@[j]) implies exists|k: int|
                            0 <= k < acts@.len() && action_worker(#[trigger] acts@[k]) == ids@[j] by {
                            if j < i {
                                let k = choose|k: int| 0 <= k < old_acts.len() && action_worker(old_acts[k]) == ids@[j];
                                assert(acts@[k] == old_acts[k]);
                            } else {
                                assert(action_worker(acts@[old_acts.len() as int]) == ids@[j]);
                            }
                        }
                    }
                },
                None => {
                    assert(!targets.contains(w));
                },
            }
            i = i + 1;
        }
        proof {
            assert forall|w: Id| #[trigger] targets.contains(w) implies exists|k: int|
                0 <= k < acts@.len() && action_worker(#[trigger] acts@[k]) == w by {
                assert(ids@.to_set().contains(w));
                let j = choose|j: int| 0 <= j < ids@.len() && ids@[j] == w;
                assert(targets.contains(ids@[j]));
            }
            assert forall|k1: int, k2: int| 0 <= k1 < k2 < acts@.len() implies action_worker(
                #[trigger] acts@[k1],
            ) != action_worker(#[trigger] acts@[k2]) by {
                assert(pos[k1] < pos[k2]);
                assert(ids@[pos[k1]] != ids@[pos[k2]]);
            }
            let f = |w: Id| self.broadcast_to(sel, w);
            assert forall|k: int| 0 <= k < acts@.len() implies #[trigger] acts@[k] == (SupervisorAction::ToWorker {
                worker_id: action_worker(acts@[k]),
                command: f(action_worker(acts@[k])),
            }) && targets.contains(action_worker(acts@[k])) by {
                assert(0 <= pos[k]);
            }
            assert(once_to_each(acts@, targets, f));
        }
        acts
    }

    /// Every worker it knows of can be commanded.
    pub open spec fn wf(&self) -> bool {
        self.worker_assignment@.dom().subset_of(self.worker_ids@)
    }

    /// A worker it knows of holds `plan_id`.
    pub open spec fn plan_holder(&self, w: Id, plan_id: Id) -> bool {
        self.assignment_of(w) matches Some(s) && holds_plan(s, plan_id)
    }

    /// Picks a free worker for a plan: the worker is marked picked, and the
    /// task manager is asked for the plan's task channel on its behalf. With
    /// no free worker nothing happens.
    pub fn handle_assign_plan(&mut self, plan_id: Id, start_immediately: bool) -> (r: Vec<SupervisorAction>)
        ensures
            final(self).worker_ids@ == old(self).worker_ids@,
            final(self).state == old(self).state,
            final(self).response_timeout_ms == old(self).response_timeout_ms,
            assign_outcome(old(self).worker_assignment@, final(self).worker_assignment@, plan_id, start_immediately, r@),
    {
        let ids = key_list(&self.worker_assignment);
        let mut i: usize = 0;
        while i < ids.len()
            invariant
                i <= ids@.len(),
                ids@.to_set() == self.worker_assignment@.dom(),
                self.worker_assignment@ == old(self).worker_assignment@,
                self.worker_ids@ == old(self).worker_ids@,
                self.state == old(self).state,
                self.response_timeout_ms == old(self).response_timeout_ms,
                forall|j: int| 0 <= j < i ==> self.worker_assignment@[#[trigger] ids@[j]]
                    != WorkerAssignmentState::Idle,
            decreases ids@.len() - i,
        {
            let w = ids[i];
            assert(self.worker_assignment@.contains_key(w)) by {
                assert(ids@.contains(w));
            }
            let idle = match self.worker_assignment.get(&w) {
                Some(WorkerAssignmentState::Idle) => true,
                _ => false,
            };
            if idle {
                self.worker_assignment.insert(w, WorkerAssignmentState::Ready);
                let mut r: Vec<SupervisorAction> = Vec::new();
                r.push(
                    SupervisorAction::ToTaskManager(
                        TaskManagerCommand::RequestTaskReceiver { plan_id, worker_id: w, start_immediately },
                    ),
                );
                assert(old(self).assignment_of(w) == Some(WorkerAssignmentState::Idle));
                return r;
            }
            i = i + 1;
        }
        proof {
            assert forall|w: Id| #[trigger] old(self).assignment_of(w) != Some(WorkerAssignmentState::Idle) by {
                if self.worker_assignment@.contains_key(w) {
                    assert(ids@.to_set().contains(w));
                    let j = choose|j: int| 0 <= j < ids@.len() && ids@[j] == w;
                    assert(self.worker_assignment@[ids@[j]] != WorkerAssignmentState::Idle);
                }
            }
        }
        Vec::new()
    }

    /// Cancels a plan: the first worker found holding it is told to cancel
    /// it, when it can be commanded. Nothing changes here; the worker's
    /// answer frees it.
    pub fn handle_cancel_plan(&self, plan_id: Id) -> (r: Vec<SupervisorAction>)
        ensures
            cancel_outcome(*self, plan_id, r@),
    {
        let ids = key_list(&self.worker_assignment);
        let mut i: usize = 0;
        while i < ids.len()
            invariant
                i <= ids@.len(),
                ids@.to_set() == self.worker_assignment@.dom(),
                forall|j: int| 0 <= j < i ==> !self.plan_holder(#[trigger] ids@[j], plan_id),
            decreases ids@.len() - i,
        {
            let w = ids[i];
            assert(self.worker_assignment@.contains_key(w)) by {
                assert(ids@.contains(w));
            }
            let holds = match self.worker_assignment.get(&w) {
                Some(WorkerAssignmentState::PlanAssigned(p)) => *p == plan_id,
                Some(WorkerAssignmentState::Running(p)) => *p == plan_id,
                _ => false,
            };
            if holds {
                let mut r: Vec<SupervisorAction> = Vec::new();
                if self.worker_ids.contains(&w) {
                    r.push(SupervisorAction::ToWorker { worker_id: w, command: WorkerCommand::CancelPlan(plan_id) });
                }
                assert(self.plan_holder(w, plan_id));
                return r;
            }
            i = i + 1;
        }
        proof {
            assert forall|w: Id| !#[trigger] self.plan_holder(w, plan_id) by {
                if self.worker_assignment@.contains_key(w) {
                    assert(ids@.to_set().contains(w));
                    let j = choose|j: int| 0 <= j < ids@.len() && ids@[j] == w;
                    assert(!self.plan_holder(ids@[j], plan_id));
                }
            }
        }
        Vec::new()
    }

    /// Starts every worker that holds a plan not yet started, then tells the
    /// engine that all were started.
    pub fn handle_start_all(&self) -> (r: Vec<SupervisorAction>)
        ensures
            start_all_outcome(*self, r@),
    {
        let mut r = self.command_each(Broadcast::StartAssigned);
        let ghost sent = r@;
        proof {
            assert(self.targets(Broadcast::StartAssigned) =~= self.assigned_workers());
            let f = |w: Id| WorkerCommand::StartSync;
            assert forall|k: int| 0 <= k < sent.len() implies #[trigger] sent[k] == (SupervisorAction::ToWorker {
                worker_id: action_worker(sent[k]),
                command: f(action_worker(sent[k])),
            }) by {
                assert(self.targets(Broadcast::StartAssigned).contains(action_worker(sent[k])));
            }
            assert(once_to_each(sent, self.assigned_workers(), f));
        }
        r.push(SupervisorAction::Respond(SupervisorResponse::AllStarted));
        assert(r@.drop_last() =~= sent);
        r
    }

    /// Cancels the plan of every worker that holds one, then tells the
    /// engine that all were cancelled.
    pub fn handle_cancel_all(&self) -> (r: Vec<SupervisorAction>)
        ensures
            cancel_all_outcome(*self, r@),
    {
        let mut r = self.command_each(Broadcast::CancelHeld);
        let ghost sent = r@;
        proof {
            assert(self.targets(Broadcast::CancelHeld) =~= self.holding_workers());
            let f = |w: Id| self.cancel_command(w);
            assert forall|k: int| 0 <= k < sent.len() implies #[trigger] sent[k] == (SupervisorAction::ToWorker {
                worker_id: action_worker(sent[k]),
                command: f(action_worker(sent[k])),
            }) by {
                assert(self.targets(Broadcast::CancelHeld).contains(action_worker(sent[k])));
            }
            assert(once_to_each(sent, self.holding_workers(), f));
        }
        r.push(SupervisorAction::Respond(SupervisorResponse::AllCancelled));
        assert(r@.drop_last() =~= sent);
        r
    }

    /// The first step of a shutdown: every worker it can command is told to
    /// shut down.
    pub fn begin_shutdown(&self) -> (r: Vec<SupervisorAction>)
        ensures
            once_to_each(r@, self.worker_ids@, |w: Id| WorkerCommand::Shutdown),
    {
        let r = self.command_each(Broadcast::Shutdown);
        proof {
            assert(self.targets(Broadcast::Shutdown) =~= self.worker_ids@);
            let f = |w: Id| WorkerCommand::Shutdown;
            assert forall|k: int| 0 <= k < r@.len() implies #[trigger] r@[k] == (SupervisorAction::ToWorker {
                worker_id: action_worker(r@[k]),
                command: f(action_worker(r@[k])),
            }) by {
                assert(self.targets(Broadcast::Shutdown).contains(action_worker(r@[k])));
            }
            assert(once_to_each(r@, self.worker_ids@, f));
        }
        r
    }

    /// Handles a command from the engine: shutdown starts with every worker
    /// told to shut down; a plan is assigned to a free worker, cancelled with
    /// the worker holding it; all plans are started or cancelled. Starting
    /// or cancelling a single plan's sync is not acted on here.
    pub fn handle_command(&mut self, command: SupervisorCommand) -> (r: Vec<SupervisorAction>)
        ensures
            final(self).worker_ids@ == old(self).worker_ids@,
            final(self).state == old(self).state,
            final(self).response_timeout_ms == old(self).response_timeout_ms,
            !(command is AssignPlan) ==> final(self).worker_assignment@ == old(self).worker_assignment@,
            match command {
                SupervisorCommand::Shutdown => once_to_each(
                    r@,
                    old(self).worker_ids@,
                    |w: Id| WorkerCommand::Shutdown,
                ),
                SupervisorCommand::AssignPlan { plan_id, start_immediately } => assign_outcome(
                    old(self).worker_assignment@,
                    final(self).worker_assignment@,
                    plan_id,
                    start_immediately,
                    r@,
                ),
                SupervisorCommand::CancelPlan(plan_id) => cancel_outcome(*old(self), plan_id, r@),
                SupervisorCommand::StartAll => start_all_outcome(*old(self), r@),
                SupervisorCommand::CancelAll => cancel_all_outcome(*old(self), r@),
                SupervisorCommand::StartSyncPlan(_) => r@.len() == 0,
                SupervisorCommand::CancelSyncPlan(_) => r@.len() == 0,
            },
    {
        match command {
            SupervisorCommand::Shutdown => self.begin_shutdown(),
            SupervisorCommand::AssignPlan { plan_id, start_immediately } => self.handle_assign_plan(
                plan_id,
                start_immediately,
            ),
            SupervisorCommand::CancelPlan(plan_id) => self.handle_cancel_plan(plan_id),
            SupervisorCommand::StartAll => self.handle_start_all(),
            SupervisorCommand::CancelAll => self.handle_cancel_all(),
            SupervisorCommand::StartSyncPlan(_) => Vec::new(),
            SupervisorCommand::CancelSyncPlan(_) => Vec::new(),
        }
    }

    /// Every worker has reported its shutdown.
    pub fn all_workers_down(&self) -> (r: bool)
        ensures
            r == (self.worker_assignment@.len() == 0),
    {
        self.worker_assignment.len() == 0
    }

    /// The last step of a shutdown: the supervisor stops and tells the
    /// engine.
    pub fn finish_shutdown(&mut self) -> (r: SupervisorAction)
        ensures
            final(self).state == ComponentState::Stopped,
            final(self).worker_ids@ == old(self).worker_ids@,
            final(self).worker_assignment@ == old(self).worker_assignment@,
            final(self).response_timeout_ms == old(self).response_timeout_ms,
            r == SupervisorAction::Respond(SupervisorResponse::ShutdownComplete),
    {
        self.state = ComponentState::Stopped;
        SupervisorAction::Respond(SupervisorResponse::ShutdownComplete)
    }

    /// Handles a worker's response: a worker that shut down is forgotten; an
    /// assigned plan is held, or running when its sync started; a cancelled
    /// plan frees its worker; a started plan runs. Assignments and
    /// cancellations are reported to the engine.
    pub fn handle_worker_response(&mut self, response: WorkerResponse) -> (r: Option<SupervisorResponse>)
        ensures
            final(self).worker_assignment@ == after_worker_response(old(self).worker_assignment@, response),
            final(self).worker_ids@ == old(self).worker_ids@,
            final(self).state == old(self).state,
            final(self).response_timeout_ms == old(self).response_timeout_ms,
            r == answer_to_worker_response(response),
    {
        match response {
            WorkerResponse::ShutdownComplete(worker_id) => {
                self.worker_assignment.remove(&worker_id);
                None
            },
            WorkerResponse::PlanAssigned { worker_id, plan_id, sync_started } => {
                if sync_started {
                    self.worker_assignment.insert(worker_id, WorkerAssignmentState::Running(plan_id));
                } else {
                    self.worker_assignment.insert(worker_id, WorkerAssignmentState::PlanAssigned(plan_id));
                }
                Some(SupervisorResponse::PlanAssigned { plan_id })
            },
            WorkerResponse::PlanCancelled { worker_id, plan_id } => {
                let held = match self.worker_assignment.get(&worker_id) {
                    Some(WorkerAssignmentState::PlanAssigned(_)) => true,
                    Some(WorkerAssignmentState::Running(_)) => true,
                    _ => false,
                };
                if held {
                    self.worker_assignment.insert(worker_id, WorkerAssignmentState::Idle);
                }
                Some(SupervisorResponse::PlanCancelled { worker_id, plan_id })
            },
            WorkerResponse::StartOk { worker_id, plan_id } => {
                let assigned = match self.worker_assignment.get(&worker_id) {
                    Some(WorkerAssignmentState::PlanAssigned(p)) => *p == plan_id,
                    _ => false,
                };
                if assigned {
                    self.worker_assignment.insert(worker_id, WorkerAssignmentState::Running(plan_id));
                }
                None
            },
            WorkerResponse::StartFailed { .. } => None,
        }
    }

    /// Handles a task manager response: a plan's task channel goes on to the
    /// worker it was asked for, with the plan, when that worker can be
    /// commanded. Nothing else is acted on.
    pub fn handle_task_manager_response(&self, response: TaskManagerResponse) -> (r: Option<SupervisorAction>)
        ensures
            r == (match response {
                TaskManagerResponse::TaskChannel { worker_id, plan_id, start_immediately } => if self.worker_ids@.contains(
                    worker_id,
                ) {
                    Some(
                        SupervisorAction::ToWorker {
                            worker_id,
                            command: WorkerCommand::AssignPlan { plan_id, start_immediately },
                        },
                    )
                } else {
                    None
                },
                _ => None,
            }),
    {
        match response {
            TaskManagerResponse::TaskChannel { worker_id, plan_id, start_immediately } => {
                if self.worker_ids.contains(&worker_id) {
                    Some(
                        SupervisorAction::ToWorker {
                            worker_id,
                            command: WorkerCommand::AssignPlan { plan_id, start_immediately },
                        },
                    )
                } else {
                    None
                }
            },
            _ => None,
        }
    }
}

/// A worker's plan goes through its life as reported: assigned without a
/// start it is held, once it reports the start it runs, and once it reports
/// the plan cancelled it is free again.
pub proof fn law_assigned_plan_runs_then_frees(m: Map<Id, WorkerAssignmentState>, w: Id, plan_id: Id)
    ensures
        ({
            let held = after_worker_response(
                m,
                WorkerResponse::PlanAssigned { worker_id: w, plan_id, sync_started: false },
            );
            let running = after_worker_response(held, WorkerResponse::StartOk { worker_id: w, plan_id });
            let freed = after_worker_response(running, WorkerResponse::PlanCancelled { worker_id: w, plan_id });
            &&& held[w] == WorkerAssignmentState::PlanAssigned(plan_id)
            &&& running[w] == WorkerAssignmentState::Running(plan_id)
            &&& freed[w] == WorkerAssignmentState::Idle
            &&& freed.dom() == m.dom().insert(w)
        }),
{
    let held = after_worker_response(m, WorkerResponse::PlanAssigned { worker_id: w, plan_id, sync_started: false });
    let running = after_worker_response(held, WorkerResponse::StartOk { worker_id: w, plan_id });
    let freed = after_worker_response(running, WorkerResponse::PlanCancelled { worker_id: w, plan_id });
    assert(running.dom() =~= m.dom().insert(w));
    assert(freed.dom() =~= m.dom().insert(w));
}

/// A worker's response changes what is known of that worker alone.
pub proof fn law_response_touches_only_its_worker(
    m: Map<Id, WorkerAssignmentState>,
    response: WorkerResponse,
    other: Id,
)
    requires
        other != (match response {
            WorkerResponse::ShutdownComplete(w) => w,
            WorkerResponse::PlanAssigned { worker_id, .. } => worker_id,
            WorkerResponse::PlanCancelled { worker_id, .. } => worker_id,
            WorkerResponse::StartOk { worker_id, .. } => worker_id,
            WorkerResponse::StartFailed { worker_id, .. } => worker_id,
        }),
    ensures
        after_worker_response(m, response).contains_key(other) == m.contains_key(other),
        m.contains_key(other) ==> after_worker_response(m, response)[other] == m[other],
{
}

/// A worker that reported its shutdown is no longer known, and a reported
/// start moves only a worker that held that very plan.
pub proof fn law_shutdown_forgets_and_start_needs_plan(
    m: Map<Id, WorkerAssignmentState>,
    w: Id,
    plan_id: Id,
)
    ensures
        !after_worker_response(m, WorkerResponse::ShutdownComplete(w)).contains_key(w),
        !(m.contains_key(w) && m[w] == WorkerAssignmentState::PlanAssigned(plan_id)) ==> after_worker_response(
            m,
            WorkerResponse::StartOk { worker_id: w, plan_id },
        ) == m,
{
}

/// Responses from the workers it can command keep every worker it knows
/// commandable.
pub proof fn law_known_workers_stay_commandable(s: Supervisor, response: WorkerResponse)
    requires
        s.wf(),
        s.worker_ids@.contains(
            match response {
                WorkerResponse::ShutdownComplete(w) => w,
                WorkerResponse::PlanAssigned { worker_id, .. } => worker_id,
                WorkerResponse::PlanCancelled { worker_id, .. } => worker_id,
                WorkerResponse::StartOk { worker_id, .. } => worker_id,
                WorkerResponse::StartFailed { worker_id, .. } => worker_id,
            },
        ),
    ensures
        after_worker_response(s.worker_assignment@, response).dom().subset_of(s.worker_ids@),
{
}

/// Workers' plan changes are reported to the engine: an assignment with its
/// plan, a cancellation with its worker and its plan; a worker's shutdown,
/// start or failed start is not reported.
pub proof fn law_plan_changes_are_reported(worker_id: Id, plan_id: Id, sync_started: bool, reason: String)
    ensures
        answer_to_worker_response((WorkerResponse::PlanCancelled { worker_id, plan_id })) == (Some(
            SupervisorResponse::PlanCancelled { worker_id, plan_id },
        )),
        answer_to_worker_response((WorkerResponse::PlanAssigned { worker_id, plan_id, sync_started })) == (Some(
            SupervisorResponse::PlanAssigned { plan_id },
        )),
        answer_to_worker_response(WorkerResponse::ShutdownComplete(worker_id)) is None,
        answer_to_worker_response((WorkerResponse::StartOk { worker_id, plan_id })) is None,
        answer_to_worker_response((WorkerResponse::StartFailed { worker_id, reason })) is None,
{
}

} // verus!
