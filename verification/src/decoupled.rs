//! Components held together by traits and builders: a task manager of
//! queues, each queue made by its own builder with a rate limiter and a
//! task receiver of the caller's choice.

use vstd::prelude::*;
use crate::factory::Builder;

verus! {

/// A unit of work.
#[derive(Debug, Clone, Copy, PartialEq, Eq, Structural)]
pub struct Task;

/// Decides whether a request may go out now.
pub trait RateLimiter {
    fn can_proceed(&self) -> bool;
}

/// A limiter that always lets requests go.
pub struct RequestRateLimiterA;

/// A limiter that never lets requests go.
pub struct RequestRateLimiterB;

impl RateLimiter for RequestRateLimiterA {
    fn can_proceed(&self) -> (r: bool)
        ensures
            r,
    {
        true
    }
}

impl RateLimiter for RequestRateLimiterB {
    fn can_proceed(&self) -> (r: bool)
        ensures
            !r,
    {
        false
    }
}

/// A channel that tasks come over.
pub trait TaskReceiver {
    fn send(&self, message: &str);

    fn receive(&mut self);
}

/// The parts a queue builder is given: its tasks, its limiter and its
/// receiver; a queue is built once it has a limiter and a receiver, and
/// holds the parts it was built from.
pub trait TaskQueueFieldSetters<RL, TR>: Builder {
    /// The tasks given so far.
    spec fn queued_tasks(&self) -> Seq<Task>;

    /// The limiter given, if any.
    spec fn given_rate_limiter(&self) -> Option<RL>;

    /// The receiver given, if any.
    spec fn given_task_receiver(&self) -> Option<TR>;

    /// The tasks a built queue holds.
    spec fn product_tasks(product: Self::Product) -> Seq<Task>;

    /// The limiter a built queue holds.
    spec fn product_rate_limiter(product: Self::Product) -> RL;

    /// The receiver a built queue holds.
    spec fn product_task_receiver(product: Self::Product) -> TR;

    fn with_queue(self, queue: Vec<Task>) -> (r: Self)
        ensures
            r.queued_tasks() == queue@,
            r.given_rate_limiter() == self.given_rate_limiter(),
            r.given_task_receiver() == self.given_task_receiver(),
    ;

    fn with_rate_limiter(self, rate_limiter: RL) -> (r: Self)
        ensures
            r.queued_tasks() == self.queued_tasks(),
            r.given_rate_limiter() == Some(rate_limiter),
            r.given_task_receiver() == self.given_task_receiver(),
    ;

    fn with_task_receiver(self, task_receiver: TR) -> (r: Self)
        ensures
            r.queued_tasks() == self.queued_tasks(),
            r.given_rate_limiter() == self.given_rate_limiter(),
            r.given_task_receiver() == Some(task_receiver),
    ;

    /// A builder as `new` makes it has no tasks, limiter or receiver.
    proof fn lemma_fresh(&self)
        requires
            self.fresh(),
        ensures
            self.queued_tasks().len() == 0,
            self.given_rate_limiter() is None,
            self.given_task_receiver() is None,
    ;

    /// A builder with a limiter and a receiver can build.
    proof fn lemma_ready(&self)
        requires
            self.given_rate_limiter() is Some,
            self.given_task_receiver() is Some,
        ensures
            self.ready(),
    ;

    /// What a builder with a limiter and a receiver builds holds its
    /// tasks, its limiter and its receiver.
    proof fn lemma_builds(&self, product: Self::Product)
        requires
            self.given_rate_limiter() is Some,
            self.given_task_receiver() is Some,
            self.builds(product),
        ensures
            Self::product_tasks(product) == self.queued_tasks(),
            Self::product_rate_limiter(product) == self.given_rate_limiter()->0,
            Self::product_task_receiver(product) == self.given_task_receiver()->0,
    ;
}

/// A queue of tasks.
pub trait Queue {
    type BuilderType;

    /// The queue's tasks, in order.
    spec fn tasks(&self) -> Seq<Task>;

    /// What kind of queue this is.
    fn describe(&self) -> &'static str;

    fn push_back(&mut self, task: Task)
        ensures
            final(self).tasks() == old(self).tasks().push(task),
    ;
}

/// A queue of the first kind.
pub struct TaskQueueA<RL, TR> {
    pub queue: Vec<Task>,
    pub rate_limiter: RL,
    pub task_receiver: TR,
}

/// A queue of the second kind.
pub struct TaskQueueB<RL, TR> {
    pub queue: Vec<Task>,
    pub rate_limiter: RL,
    pub task_receiver: TR,
}

/// The parts of a queue of the first kind.
pub struct TaskQueueABuilder<RL, TR> {
    pub queue: Option<Vec<Task>>,
    pub rate_limiter: Option<RL>,
    pub task_receiver: Option<TR>,
}

/// The parts of a queue of the second kind.
pub struct TaskQueueBBuilder<RL, TR> {
    pub queue: Option<Vec<Task>>,
    pub rate_limiter: Option<RL>,
    pub task_receiver: Option<TR>,
}

impl<RL, TR> Builder for TaskQueueABuilder<RL, TR> {
    type Product = TaskQueueA<RL, TR>;

    open spec fn ready(&self) -> bool {
        self.rate_limiter is Some && self.task_receiver is Some
    }

    /// An empty queue of tasks, no limiter and no receiver.
    open spec fn fresh(&self) -> bool {
        &&& self.queue matches Some(q) && q@.len() == 0
        &&& self.rate_limiter is None
        &&& self.task_receiver is None
    }

    /// The queue holds the builder's tasks, or none, and its limiter and
    /// receiver.
    open spec fn builds(&self, product: TaskQueueA<RL, TR>) -> bool {
        &&& product.queue@ == (match self.queue {
            Some(q) => q@,
            None => Seq::<Task>::empty(),
        })
        &&& product.rate_limiter == self.rate_limiter->0
        &&& product.task_receiver == self.task_receiver->0
    }

    /// A builder of an empty queue, with no limiter and no receiver.
    fn new() -> (r: Self)
        ensures
            r.queue matches Some(q) && q@.len() == 0,
            r.rate_limiter is None,
            r.task_receiver is None,
    {
        TaskQueueABuilder { queue: Some(Vec::new()), rate_limiter: None, task_receiver: None }
    }

    /// The queue of the given tasks, or of none, with its limiter and
    /// receiver.
    fn build(self) -> (r: TaskQueueA<RL, TR>)
        ensures
            r.queue@ == (match self.queue {
                Some(q) => q@,
                None => Seq::<Task>::empty(),
            }),
            r.rate_limiter == self.rate_limiter->0,
            r.task_receiver == self.task_receiver->0,
    {
        let queue = match self.queue {
            Some(q) => q,
            None => Vec::new(),
        };
        match (self.rate_limiter, self.task_receiver) {
            (Some(rate_limiter), Some(task_receiver)) => TaskQueueA { queue, rate_limiter, task_receiver },
            _ => vstd::pervasive::unreached(),
        }
    }
}

impl<RL, TR> TaskQueueFieldSetters<RL, TR> for TaskQueueABuilder<RL, TR> {
    open spec fn queued_tasks(&self) -> Seq<Task> {
        match self.queue {
            Some(q) => q@,
            None => Seq::<Task>::empty(),
        }
    }

    open spec fn given_rate_limiter(&self) -> Option<RL> {
        self.rate_limiter
    }

    open spec fn given_task_receiver(&self) -> Option<TR> {
        self.task_receiver
    }

    open spec fn product_tasks(product: TaskQueueA<RL, TR>) -> Seq<Task> {
        product.queue@
    }

    open spec fn product_rate_limiter(product: TaskQueueA<RL, TR>) -> RL {
        product.rate_limiter
    }

    open spec fn product_task_receiver(product: TaskQueueA<RL, TR>) -> TR {
        product.task_receiver
    }

    fn with_queue(self, queue: Vec<Task>) -> (r: Self)
        ensures
            r == (TaskQueueABuilder { queue: Some(queue), ..self }),
    {
        TaskQueueABuilder { queue: Some(queue), ..self }
    }

    fn with_rate_limiter(self, rate_limiter: RL) -> (r: Self)
        ensures
            r == (TaskQueueABuilder { rate_limiter: Some(rate_limiter), ..self }),
    {
        TaskQueueABuilder { rate_limiter: Some(rate_limiter), ..self }
    }

    fn with_task_receiver(self, task_receiver: TR) -> (r: Self)
        ensures
            r == (TaskQueueABuilder { task_receiver: Some(task_receiver), ..self }),
    {
        TaskQueueABuilder { task_receiver: Some(task_receiver), ..self }
    }

    proof fn lemma_fresh(&self) {
    }

    proof fn lemma_ready(&self) {
    }

    proof fn lemma_builds(&self, product: TaskQueueA<RL, TR>) {
    }
}

impl<RL, TR> Builder for TaskQueueBBuilder<RL, TR> {
    type Product = TaskQueueB<RL, TR>;

    open spec fn ready(&self) -> bool {
        self.rate_limiter is Some && self.task_receiver is Some
    }

    /// An empty queue of tasks, no limiter and no receiver.
    open spec fn fresh(&self) -> bool {
        &&& self.queue matches Some(q) && q@.len() == 0
        &&& self.rate_limiter is None
        &&& self.task_receiver is None
    }

    /// The queue holds the builder's tasks, or none, and its limiter and
    /// receiver.
    open spec fn builds(&self, product: TaskQueueB<RL, TR>) -> bool {
        &&& product.queue@ == (match self.queue {
            Some(q) => q@,
            None => Seq::<Task>::empty(),
        })
        &&& product.rate_limiter == self.rate_limiter->0
        &&& product.task_receiver == self.task_receiver->0
    }

    /// A builder of an empty queue, with no limiter and no receiver.
    fn new() -> (r: Self)
        ensures
            r.queue matches Some(q) && q@.len() == 0,
            r.rate_limiter is None,
            r.task_receiver is None,
    {
        TaskQueueBBuilder { queue: Some(Vec::new()), rate_limiter: None, task_receiver: None }
    }

    /// The queue of the given tasks, or of none, with its limiter and
    /// receiver.
    fn build(self) -> (r: TaskQueueB<RL, TR>)
        ensures
            r.queue@ == (match self.queue {
                Some(q) => q@,
                None => Seq::<Task>::empty(),
            }),
            r.rate_limiter == self.rate_limiter->0,
            r.task_receiver == self.task_receiver->0,
    {
        let queue = match self.queue {
            Some(q) => q,
            None => Vec::new(),
        };
        match (self.rate_limiter, self.task_receiver) {
            (Some(rate_limiter), Some(task_receiver)) => TaskQueueB { queue, rate_limiter, task_receiver },
            _ => vstd::pervasive::unreached(),
        }
    }
}

impl<RL, TR> TaskQueueFieldSetters<RL, TR> for TaskQueueBBuilder<RL, TR> {
    open spec fn queued_tasks(&self) -> Seq<Task> {
        match self.queue {
            Some(q) => q@,
            None => Seq::<Task>::empty(),
        }
    }

    open spec fn given_rate_limiter(&self) -> Option<RL> {
        self.rate_limiter
    }

    open spec fn given_task_receiver(&self) -> Option<TR> {
        self.task_receiver
    }

    open spec fn product_tasks(product: TaskQueueB<RL, TR>) -> Seq<Task> {
        product.queue@
    }

    open spec fn product_rate_limiter(product: TaskQueueB<RL, TR>) -> RL {
        product.rate_limiter
    }

    open spec fn product_task_receiver(product: TaskQueueB<RL, TR>) -> TR {
        product.task_receiver
    }

    fn with_queue(self, queue: Vec<Task>) -> (r: Self)
        ensures
            r == (TaskQueueBBuilder { queue: Some(queue), ..self }),
    {
        TaskQueueBBuilder { queue: Some(queue), ..self }
    }

    fn with_rate_limiter(self, rate_limiter: RL) -> (r: Self)
        ensures
            r == (TaskQueueBBuilder { rate_limiter: Some(rate_limiter), ..self }),
    {
        TaskQueueBBuilder { rate_limiter: Some(rate_limiter), ..self }
    }

    fn with_task_receiver(self, task_receiver: TR) -> (r: Self)
        ensures
            r == (TaskQueueBBuilder { task_receiver: Some(task_receiver), ..self }),
    {
        TaskQueueBBuilder { task_receiver: Some(task_receiver), ..self }
    }

    proof fn lemma_fresh(&self) {
    }

    proof fn lemma_ready(&self) {
    }

    proof fn lemma_builds(&self, product: TaskQueueB<RL, TR>) {
    }
}

impl<RL, TR> Queue for TaskQueueA<RL, TR> {
    type BuilderType = TaskQueueABuilder<RL, TR>;

    open spec fn tasks(&self) -> Seq<Task> {
        self.queue@
    }

    fn describe(&self) -> (r: &'static str)
        ensures
            r@ == "I am Product A"@,
    {
        "I am Product A"
    }

    fn push_back(&mut self, task: Task) {
        self.queue.push(task);
    }
}

impl<RL, TR> Queue for TaskQueueB<RL, TR> {
    type BuilderType = TaskQueueBBuilder<RL, TR>;

    open spec fn tasks(&self) -> Seq<Task> {
        self.queue@
    }

    fn describe(&self) -> (r: &'static str)
        ensures
            r@ == "I am Product B"@,
    {
        "I am Product B"
    }

    fn push_back(&mut self, task: Task) {
        self.queue.push(task);
    }
}

/// Makes queues through their builders.
pub struct QueueFactory;

impl QueueFactory {
    /// A queue built by `B` with the given limiter and receiver, and no
    /// tasks.
    pub fn create_queue<B: Builder + TaskQueueFieldSetters<RL, TR>, RL, TR>(rate_limiter: RL, task_receiver: TR) -> (r:
        B::Product)
        ensures
            B::product_tasks(r).len() == 0,
            B::product_rate_limiter(r) == rate_limiter,
            B::product_task_receiver(r) == task_receiver,
    {
        let builder = B::new();
        proof {
            builder.lemma_fresh();
        }
        let builder = builder.with_rate_limiter(rate_limiter);
        let builder = builder.with_task_receiver(task_receiver);
        proof {
            builder.lemma_ready();
        }
        let queue = builder.build();
        proof {
            builder.lemma_builds(queue);
        }
        queue
    }
}

/// A task manager of queues of one kind.
pub struct TaskManager<TQ> {
    pub queue: Vec<TQ>,
}

impl<TQ: Queue> TaskManager<TQ> {
    /// A manager of no queues.
    pub fn new() -> (r: Self)
        ensures
            r.queue@.len() == 0,
    {
        TaskManager { queue: Vec::new() }
    }

    /// Adds a queue, built with the given limiter and receiver, that ends
    /// with the given tasks in order; the other queues stay.
    pub fn add_tasks_to_queue<RL, TR>(&mut self, tasks: Vec<Task>, rate_limiter: RL, task_receiver: TR)
        where
            TQ::BuilderType: Builder<Product = TQ> + TaskQueueFieldSetters<RL, TR>,
        ensures
            final(self).queue@.len() == old(self).queue@.len() + 1,
            final(self).queue@.take(old(self).queue@.len() as int) == old(self).queue@,
            ({
                let added = final(self).queue@.last().tasks();
                added.len() >= tasks@.len() && added.subrange(added.len() - tasks@.len(), added.len() as int)
                    == tasks@
            }),
    {
        let mut new_queue = QueueFactory::create_queue::<TQ::BuilderType, RL, TR>(rate_limiter, task_receiver);
        let ghost start = new_queue.tasks();
        let mut i: usize = 0;
        while i < tasks.len()
            invariant
                i <= tasks@.len(),
                new_queue.tasks() == start + tasks@.take(i as int),
            decreases tasks@.len() - i,
        {
            new_queue.push_back(tasks[i]);
            assert(tasks@.take(i as int + 1) == tasks@.take(i as int).push(tasks@[i as int]));
            i = i + 1;
        }
        assert(tasks@.take(tasks@.len() as int) =~= tasks@);
        let ghost added = new_queue.tasks();
        assert(added.subrange(added.len() - tasks@.len(), added.len() as int) =~= tasks@);
        self.queue.push(new_queue);
        assert(self.queue@.take(old(self).queue@.len() as int) =~= old(self).queue@);
    }
}

} // verus!
