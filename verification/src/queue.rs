use vstd::prelude::*;
use vstd::multiset::Multiset;
use crate::task::{outranks, same_rank, Task};

verus! {

broadcast use vstd::seq_lib::group_to_multiset_ensures;

/// Whether `task` is one that a queue holding `tasks` serves first: it is in
/// the queue and no task in the queue outranks it.
pub open spec fn served_first<T>(tasks: Multiset<Task<T>>, task: Task<T>) -> bool {
    &&& tasks.contains(task)
    &&& forall|other: Task<T>| #[trigger] tasks.contains(other) ==> !outranks(other, task)
}

/// The task served first is the most urgent one: no waiting task has a
/// lower priority number, and none with the same priority has a greater id.
pub proof fn lemma_served_first_is_most_urgent<T>(tasks: Multiset<Task<T>>, task: Task<T>, other: Task<T>)
    requires
        served_first(tasks, task),
        tasks.contains(other),
    ensures
        task.payload.priority <= other.payload.priority,
        other.payload.priority == task.payload.priority ==> other.id <= task.id,
{
}

/// The waiting tasks settle which task is served first: any two tasks that
/// could be served first have the same priority and the same id.
pub proof fn lemma_served_first_unique<T>(tasks: Multiset<Task<T>>, a: Task<T>, b: Task<T>)
    requires
        served_first(tasks, a),
        served_first(tasks, b),
    ensures
        same_rank(a, b),
{
}

/// The queue of tasks that wait to be processed. It serves the task with the
/// lowest priority number first, and among those the one with the greatest id.
pub struct TaskQueue<T> {
    tasks: Vec<Task<T>>,
}

impl<T> View for TaskQueue<T> {
    type V = Multiset<Task<T>>;

    /// The tasks that wait, as a multiset: the queue promises no order
    /// among them but the one `pop` follows.
    closed spec fn view(&self) -> Multiset<Task<T>> {
        self.tasks@.to_multiset()
    }
}

impl<T> TaskQueue<T> {
    /// An empty queue.
    pub fn new() -> (queue: Self)
        ensures
            queue@ == Multiset::<Task<T>>::empty(),
    {
        let queue = TaskQueue { tasks: Vec::new() };
        proof {
            assert(queue.tasks@ =~= Seq::<Task<T>>::empty());
            assert(queue.tasks@.to_multiset().len() == 0);
            assert(queue.tasks@.to_multiset() =~= Multiset::<Task<T>>::empty());
        }
        queue
    }

    /// How many tasks wait.
    pub fn len(&self) -> (n: usize)
        ensures
            n == self@.len(),
    {
        self.tasks.len()
    }

    /// Whether no task waits.
    pub fn is_empty(&self) -> (empty: bool)
        ensures
            empty == (self@.len() == 0),
    {
        self.tasks.len() == 0
    }

    /// Adds a task.
    pub fn push(&mut self, task: Task<T>)
        ensures
            final(self)@ == old(self)@.insert(task),
    {
        self.tasks.push(task);
    }

    /// Takes out the task to serve next, or `None` when no task waits.
    pub fn pop(&mut self) -> (next: Option<Task<T>>)
        ensures
            match next {
                None => old(self)@.len() == 0 && final(self)@ == old(self)@,
                Some(task) => served_first(old(self)@, task) && final(self)@ == old(self)@.remove(task),
            },
    {
        let n = self.tasks.len();
        if n == 0 {
            return None;
        }
        let mut best: usize = 0;
        let mut i: usize = 1;
        while i < n
            invariant
                n == self.tasks.len(),
                0 <= best < i <= n,
                forall|j: int| 0 <= j < i ==> !outranks(#[trigger] self.tasks@[j], self.tasks@[best as int]),
            decreases n - i,
        {
            if self.tasks[i].outranks(&self.tasks[best]) {
                best = i;
            }
            i = i + 1;
        }
        let ghost before = self.tasks@;
        let task = self.tasks.remove(best);
        proof {
            assert(before.to_multiset().contains(task));
            assert forall|other: Task<T>| #[trigger] before.to_multiset().contains(other) implies !outranks(other, task) by {
                assert(before.contains(other));
                let j = choose|j: int| 0 <= j < before.len() && before[j] == other;
                assert(!outranks(before[j], before[best as int]));
            }
        }
        Some(task)
    }
}

} // verus!
