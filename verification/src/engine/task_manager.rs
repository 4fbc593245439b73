//! The engine's task manager: it turns each added plan into a queue of
//! tasks and answers each task request with the next task of the plan.

use vstd::prelude::*;
use std::collections::{HashMap, HashSet, VecDeque};
use vstd::string::StringExecFns;
use crate::ids::{Id, new_id, format_id, id_text};
use super::commands::{
    ComponentState, Plan, Task, TaskManagerCommand, TaskManagerResponse, TaskRequestResponse,
};

verus! {

broadcast use vstd::std_specs::hash::group_hash_axioms;

/// What the task manager does in answer to a command: answer its
/// listeners, or send a task request's answer over the plan's channel.
#[derive(Debug)]
pub enum TaskManagerOutput {
    Respond(TaskManagerResponse),
    SendTask { plan_id: Id, response: TaskRequestResponse },
}

/// The message of a task channel request for an unknown plan.
pub open spec fn no_sender_message(plan_id: Id) -> Seq<char> {
    "No task sender found for plan "@ + id_text(plan_id)
}

/// The tasks a plan becomes: one per specification, in order, each of the
/// plan.
pub open spec fn plan_tasks(plan: Plan, tasks: Seq<Task>) -> bool {
    &&& tasks.len() == plan.task_specs@.len()
    &&& forall|i: int| 0 <= i < tasks.len() ==> (#[trigger] tasks[i]).plan_id == plan.plan_id
        && tasks[i].spec == plan.task_specs@[i]
}

/// A task request on a plan's queue: the next task, or none left.
pub open spec fn request_answer(queue: Option<Seq<Task>>) -> TaskRequestResponse {
    match queue {
        Some(q) => if q.len() > 0 {
            TaskRequestResponse::NewTask(q[0])
        } else {
            TaskRequestResponse::NoTaskLeft
        },
        None => TaskRequestResponse::NoTaskLeft,
    }
}

/// The plan's queue after a task request.
pub open spec fn queue_after_request(queue: Option<Seq<Task>>) -> Option<Seq<Task>> {
    match queue {
        Some(q) => if q.len() > 0 {
            Some(q.drop_first())
        } else {
            Some(q)
        },
        None => None,
    }
}

/// The manager's reply to a command that does not depend on its queues.
pub open spec fn plan_command_reply(cmd: TaskManagerCommand) -> Option<TaskManagerResponse> {
    match cmd {
        TaskManagerCommand::Shutdown => Some(TaskManagerResponse::ShutdownComplete),
        TaskManagerCommand::AddPlan(plan) => Some(TaskManagerResponse::PlanAdded { plan_id: plan.plan_id }),
        TaskManagerCommand::RemovePlan(plan_id) => Some(TaskManagerResponse::PlanRemoved { plan_id }),
        _ => None,
    }
}

/// What handling a command does: the manager `before` becomes `after`, and
/// `r` is what it sends out.
pub open spec fn handles(
    before: TaskManager,
    command: TaskManagerCommand,
    after: TaskManager,
    r: Seq<TaskManagerOutput>,
) -> bool {
    match command {
        TaskManagerCommand::Shutdown => {
            &&& after.state == ComponentState::Stopped
            &&& after.task_queues@ == before.task_queues@
            &&& after.task_senders@ == before.task_senders@
            &&& r == seq![TaskManagerOutput::Respond(TaskManagerResponse::ShutdownComplete)]
        },
        TaskManagerCommand::AddPlan(plan) => {
            &&& after.state == before.state
            &&& after.task_queues@.dom() == before.task_queues@.dom().insert(plan.plan_id)
            &&& forall|k: Id| k != plan.plan_id && #[trigger] before.task_queues@.contains_key(k)
                ==> after.task_queues@[k] == before.task_queues@[k]
            &&& plan_tasks(plan, after.task_queues@[plan.plan_id]@)
            &&& after.task_senders@ == before.task_senders@.insert(plan.plan_id)
            &&& r == seq![TaskManagerOutput::Respond(TaskManagerResponse::PlanAdded { plan_id: plan.plan_id })]
        },
        TaskManagerCommand::RemovePlan(plan_id) => {
            &&& after.state == before.state
            &&& after.task_queues@ == before.task_queues@.remove(plan_id)
            &&& after.task_senders@ == before.task_senders@
            &&& r == seq![TaskManagerOutput::Respond(TaskManagerResponse::PlanRemoved { plan_id })]
        },
        TaskManagerCommand::RequestTask(plan_id) => {
            &&& after.state == before.state
            &&& after.task_senders@ == before.task_senders@
            &&& after.task_queues@.dom() == before.task_queues@.dom()
            &&& forall|k: Id| k != plan_id && #[trigger] before.task_queues@.contains_key(k)
                ==> after.task_queues@[k] == before.task_queues@[k]
            &&& after.queue_of(plan_id) == queue_after_request(before.queue_of(plan_id))
            &&& before.task_senders@.contains(plan_id) ==> r == seq![
                TaskManagerOutput::SendTask { plan_id, response: request_answer(before.queue_of(plan_id)) },
            ]
            &&& !before.task_senders@.contains(plan_id) ==> r.len() == 0
        },
        TaskManagerCommand::RequestTaskReceiver { plan_id, worker_id, start_immediately } => {
            &&& after.state == before.state
            &&& after.task_queues@ == before.task_queues@
            &&& after.task_senders@ == before.task_senders@
            &&& r.len() == 1
            &&& before.task_senders@.contains(plan_id) ==> r[0] == TaskManagerOutput::Respond(
                TaskManagerResponse::TaskChannel { worker_id, plan_id, start_immediately },
            )
            &&& !before.task_senders@.contains(plan_id) ==> (r[0] matches TaskManagerOutput::Respond(
                TaskManagerResponse::Error { message },
            ) && message@ == no_sender_message(plan_id))
        },
    }
}

/// The manager's queues, state and the plans it has a task channel for;
/// the channels themselves are held by whoever runs it.
#[derive(Debug)]
pub struct TaskManager {
    pub task_queues: HashMap<Id, VecDeque<Task>>,
    pub task_senders: HashSet<Id>,
    pub state: ComponentState,
}

impl TaskManager {
    /// The plan's queue, by its view, when the plan has one.
    pub open spec fn queue_of(&self, plan_id: Id) -> Option<Seq<Task>> {
        if self.task_queues@.contains_key(plan_id) {
            Some(self.task_queues@[plan_id]@)
        } else {
            None
        }
    }

    /// A manager with no plans.
    pub fn new() -> (r: TaskManager)
        ensures
            r.task_queues@ == Map::<Id, VecDeque<Task>>::empty(),
            r.task_senders@ == Set::<Id>::empty(),
            r.state == ComponentState::Created,
    {
        TaskManager { task_queues: HashMap::new(), task_senders: HashSet::new(), state: ComponentState::Created }
    }

    /// The manager shut down, so its loop ends.
    pub fn is_stopped(&self) -> (r: bool)
        ensures
            r == (self.state == ComponentState::Stopped),
    {
        self.state == ComponentState::Stopped
    }

    /// Turns a plan into its queue of tasks, each with a fresh random id.
    fn make_tasks(plan: Plan) -> (r: VecDeque<Task>)
        ensures
            plan_tasks(plan, r@),
    {
        let plan_id = plan.plan_id;
        let ghost specs = plan.task_specs@;
        let mut specs_left = plan.task_specs;
        let total = specs_left.len();
        let mut tasks: VecDeque<Task> = VecDeque::new();
        let mut n: usize = 0;
        while specs_left.len() > 0
            invariant
                specs == specs.take(n as int) + specs_left@,
                n + specs_left@.len() == specs.len(),
                specs.len() == total,
                tasks@.len() == n,
                forall|i: int| 0 <= i < n ==> (#[trigger] tasks@[i]).plan_id == plan_id && tasks@[i].spec
                    == specs[i],
            decreases specs_left.len(),
        {
            let spec = specs_left.remove(0);
            assert(specs[n as int] == spec);
            tasks.push_back(Task { plan_id, task_id: new_id(), spec });
            n = n + 1;
            assert(specs =~= specs.take(n as int) + specs_left@);
        }
        tasks
    }

    /// Handles a command. Shutdown stops the manager. A new plan becomes a
    /// queue of tasks, replacing the plan's old one, and gets a task channel.
    /// A removed plan loses its queue but keeps its channel. A task request
    /// takes the plan's next task, or finds none left, and the answer goes
    /// over the plan's channel when it has one. A task channel request is
    /// answered with the channel, or an error when the plan has none.
    pub fn handle_command(&mut self, command: TaskManagerCommand) -> (r: Vec<TaskManagerOutput>)
        ensures
            plan_command_reply(command) matches Some(reply) ==> r@ == seq![TaskManagerOutput::Respond(reply)],
            handles(*old(self), command, *final(self), r@),
    {
        let mut out: Vec<TaskManagerOutput> = Vec::new();
        match command {
            TaskManagerCommand::Shutdown => {
                self.state = ComponentState::Stopped;
                out.push(TaskManagerOutput::Respond(TaskManagerResponse::ShutdownComplete));
            },
            TaskManagerCommand::AddPlan(plan) => {
                let plan_id = plan.plan_id;
                let tasks = Self::make_tasks(plan);
                self.task_queues.insert(plan_id, tasks);
                self.task_senders.insert(plan_id);
                out.push(TaskManagerOutput::Respond(TaskManagerResponse::PlanAdded { plan_id }));
            },
            TaskManagerCommand::RemovePlan(plan_id) => {
                self.task_queues.remove(&plan_id);
                out.push(TaskManagerOutput::Respond(TaskManagerResponse::PlanRemoved { plan_id }));
            },
            TaskManagerCommand::RequestTask(plan_id) => {
                let response = match self.task_queues.remove(&plan_id) {
                    Some(queue) => {
                        let mut queue = queue;
                        let next = queue.pop_front();
                        self.task_queues.insert(plan_id, queue);
                        match next {
                            Some(task) => TaskRequestResponse::NewTask(task),
                            None => TaskRequestResponse::NoTaskLeft,
                        }
                    },
                    None => TaskRequestResponse::NoTaskLeft,
                };
                assert(self.task_queues@.dom() =~= old(self).task_queues@.dom());
                if self.task_senders.contains(&plan_id) {
                    out.push(TaskManagerOutput::SendTask { plan_id, response });
                }
            },
            TaskManagerCommand::RequestTaskReceiver { plan_id, worker_id, start_immediately } => {
                if self.task_senders.contains(&plan_id) {
                    out.push(
                        TaskManagerOutput::Respond(
                            TaskManagerResponse::TaskChannel { worker_id, plan_id, start_immediately },
                        ),
                    );
                } else {
                    let mut message = String::from_str("No task sender found for plan ");
                    let id = format_id(plan_id);
                    message.append(id.as_str());
                    out.push(TaskManagerOutput::Respond(TaskManagerResponse::Error { message }));
                }
            },
        }
        out
    }
}

/// A plan's tasks go out in the order of its specifications: right after
/// the plan is added, a task request is answered with a task of the plan
/// made from its first specification, and the rest wait in order.
pub proof fn law_plan_tasks_go_out_in_order(plan: Plan, queue: Seq<Task>)
    requires
        plan_tasks(plan, queue),
        plan.task_specs@.len() > 0,
    ensures
        request_answer(Some(queue)) matches TaskRequestResponse::NewTask(t) && t.plan_id == plan.plan_id
            && t.spec == plan.task_specs@[0],
        queue_after_request(Some(queue)) == Some(queue.drop_first()),
        forall|i: int|
            0 <= i < queue.len() - 1 ==> (#[trigger] queue.drop_first()[i]).spec == plan.task_specs@[i + 1],
{
    assert(queue[0].spec == plan.task_specs@[0]);
    assert forall|i: int| 0 <= i < queue.len() - 1 implies (#[trigger] queue.drop_first()[i]).spec
        == plan.task_specs@[i + 1] by {
        assert(queue.drop_first()[i] == queue[i + 1]);
    }
}

/// A plan that was never added, or was removed, has nothing to hand out:
/// a task request finds no task left and changes nothing.
pub proof fn law_unknown_plan_has_no_tasks()
    ensures
        request_answer(None) == TaskRequestResponse::NoTaskLeft,
        queue_after_request(None) == None::<Seq<Task>>,
{
}

/// The commands of a run: `states[i]` handles `commands[i]`, sends out
/// `outs[i]` and becomes `states[i + 1]`.
pub open spec fn is_run(
    states: Seq<TaskManager>,
    commands: Seq<TaskManagerCommand>,
    outs: Seq<Seq<TaskManagerOutput>>,
) -> bool {
    &&& states.len() == commands.len() + 1
    &&& outs.len() == commands.len()
    &&& forall|i: int| 0 <= i < commands.len() ==> handles(states[i], #[trigger] commands[i], states[i + 1], outs[i])
}

/// The command adds a plan of id `plan_id`.
pub open spec fn adds_plan(command: TaskManagerCommand, plan_id: Id) -> bool {
    command matches TaskManagerCommand::AddPlan(plan) && plan.plan_id == plan_id
}

proof fn lemma_removed_plan_stays_gone(
    states: Seq<TaskManager>,
    commands: Seq<TaskManagerCommand>,
    outs: Seq<Seq<TaskManagerOutput>>,
    plan_id: Id,
    j: int,
)
    requires
        is_run(states, commands, outs),
        commands.len() >= 2,
        adds_plan(commands[0], plan_id),
        commands[1] == TaskManagerCommand::RemovePlan(plan_id),
        forall|i: int| 2 <= i < commands.len() ==> !adds_plan(#[trigger] commands[i], plan_id),
        2 <= j <= commands.len(),
    ensures
        states[j].queue_of(plan_id) is None,
        states[j].task_senders@.contains(plan_id),
    decreases j,
{
    assert(handles(states[0], commands[0], states[1], outs[0]));
    assert(handles(states[1], commands[1], states[2], outs[1]));
    if j > 2 {
        lemma_removed_plan_stays_gone(states, commands, outs, plan_id, j - 1);
        assert(handles(states[j - 1], commands[j - 1], states[j], outs[j - 1]));
        assert(!adds_plan(commands[j - 1], plan_id));
    }
}

/// A removed plan hands out nothing more: in a run that adds a plan and
/// then removes it, the removal is answered with `PlanRemoved`, the other
/// plans' queues stay as they were, and, as long as the plan is not added
/// again, every later request for its tasks is answered over its channel
/// with no task left.
pub proof fn law_removed_plan_hands_out_nothing(
    states: Seq<TaskManager>,
    commands: Seq<TaskManagerCommand>,
    outs: Seq<Seq<TaskManagerOutput>>,
    plan_id: Id,
)
    requires
        is_run(states, commands, outs),
        commands.len() >= 2,
        adds_plan(commands[0], plan_id),
        commands[1] == TaskManagerCommand::RemovePlan(plan_id),
        forall|i: int| 2 <= i < commands.len() ==> !adds_plan(#[trigger] commands[i], plan_id),
    ensures
        outs[1] == seq![TaskManagerOutput::Respond(TaskManagerResponse::PlanRemoved { plan_id })],
        states[2].task_queues@ == states[1].task_queues@.remove(plan_id),
        forall|i: int|
            2 <= i < commands.len() && #[trigger] commands[i] == TaskManagerCommand::RequestTask(plan_id)
                ==> outs[i] == seq![
                TaskManagerOutput::SendTask { plan_id, response: TaskRequestResponse::NoTaskLeft },
            ],
{
    assert(handles(states[1], commands[1], states[2], outs[1]));
    assert forall|i: int|
        2 <= i < commands.len() && #[trigger] commands[i] == TaskManagerCommand::RequestTask(plan_id)
            implies outs[i] == seq![
            TaskManagerOutput::SendTask { plan_id, response: TaskRequestResponse::NoTaskLeft },
        ] by {
        lemma_removed_plan_stays_gone(states, commands, outs, plan_id, i);
        assert(handles(states[i], commands[i], states[i + 1], outs[i]));
    }
}

} // verus!
