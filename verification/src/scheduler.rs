use vstd::prelude::*;
use vstd::multiset::Multiset;
use crate::ids::{hyphenated, id_of_text, id_text, is_random_uuid, lemma_text_names_id, new_task_id};
use crate::queue::{served_first, TaskQueue};
use crate::storage::{status_lookup, InMemoryStorage};
use crate::task::{Task, TaskPayload, TaskSchedulerError, TaskStatus};

verus! {

broadcast use vstd::multiset::group_multiset_axioms;

/// How long the processing loop waits, in milliseconds, before it looks at
/// an empty queue again.
pub const POLL_INTERVAL_MS: u64 = 100;

/// What the processing loop does next.
pub enum SchedulerAction<T> {
    /// Process the given task; its result goes to `finish_task` afterwards.
    Process(Task<T>),
    /// The queue is empty: wait `POLL_INTERVAL_MS`, then poll again.
    Sleep,
}

/// The status a finished task gets from the result of its processing.
pub open spec fn finished_status(result: Result<(), String>) -> TaskStatus {
    match result {
        Ok(_) => TaskStatus::Completed,
        Err(message) => TaskStatus::Failed(message),
    }
}

/// The status a finished task gets from the result of its processing:
/// `Completed` on success, `Failed` with the error's message otherwise.
pub fn status_from_result(result: Result<(), String>) -> (status: TaskStatus)
    ensures
        status == finished_status(result),
        result is Ok <==> status == TaskStatus::Completed,
        result matches Err(message) ==> status == TaskStatus::Failed(message),
{
    match result {
        Ok(_) => TaskStatus::Completed,
        Err(message) => TaskStatus::Failed(message),
    }
}

/// Accepts tasks up to a capacity, hands them out most urgent first, and
/// records the status of every task it accepted.
pub struct TaskScheduler<T> {
    task_queue: TaskQueue<T>,
    task_storage: InMemoryStorage,
    max_tasks: usize,
}

/// Whether `after` is `before` with the task `task_id` carrying `payload`
/// accepted: queued, and recorded as ongoing.
pub open spec fn accepted<T>(
    before: TaskScheduler<T>,
    after: TaskScheduler<T>,
    task_id: u128,
    payload: TaskPayload<T>,
) -> bool {
    &&& after.queued() == before.queued().insert(Task { id: task_id, payload })
    &&& after.statuses() == before.statuses().insert(task_id, TaskStatus::Ongoing)
    &&& after.capacity() == before.capacity()
}

/// Whether `after` is `before` with the processing of task `task_id` finished
/// with `result`: its status, where one is recorded, follows the result.
pub open spec fn finished<T>(
    before: TaskScheduler<T>,
    after: TaskScheduler<T>,
    task_id: u128,
    result: Result<(), String>,
) -> bool {
    &&& after.queued() == before.queued()
    &&& after.capacity() == before.capacity()
    &&& after.statuses() == if before.statuses().contains_key(task_id) {
        before.statuses().insert(task_id, finished_status(result))
    } else {
        before.statuses()
    }
}

impl<T> TaskScheduler<T> {
    /// The tasks that wait to be processed.
    pub closed spec fn queued(&self) -> Multiset<Task<T>> {
        self.task_queue@
    }

    /// The recorded status of each task.
    pub closed spec fn statuses(&self) -> Map<u128, TaskStatus> {
        self.task_storage@
    }

    /// How many tasks may wait at once.
    pub closed spec fn capacity(&self) -> nat {
        self.max_tasks as nat
    }

    /// The scheduler's invariant: no more tasks wait than it may hold, and
    /// every waiting task has a recorded status.
    pub open spec fn wf(&self) -> bool {
        &&& self.queued().len() <= self.capacity()
        &&& forall|task: Task<T>| #[trigger] self.queued().contains(task) ==> self.statuses().contains_key(task.id)
    }

    /// A scheduler that may hold `max_tasks` waiting tasks and records
    /// statuses in `task_storage`. It starts with no waiting task.
    pub fn new(max_tasks: usize, task_storage: InMemoryStorage) -> (scheduler: Self)
        ensures
            scheduler.wf(),
            scheduler.queued() == Multiset::<Task<T>>::empty(),
            scheduler.statuses() == task_storage@,
            scheduler.capacity() == max_tasks,
    {
        TaskScheduler { task_queue: TaskQueue::new(), task_storage, max_tasks }
    }

    /// The record of every task's status.
    pub fn get_storage(&self) -> (storage: &InMemoryStorage)
        ensures
            storage@ == self.statuses(),
    {
        &self.task_storage
    }

    /// How many tasks wait to be processed.
    pub fn queue_len(&self) -> (n: usize)
        ensures
            n == self.queued().len(),
    {
        self.task_queue.len()
    }

    /// Submits a task under a given id: refused with `QueueFull` when the
    /// queue holds as many tasks as it may, and then nothing changes;
    /// otherwise queued, recorded as ongoing, and answered with the id's text.
    pub fn submit_task_as(&mut self, task_id: u128, payload: TaskPayload<T>) -> (answer: Result<String, TaskSchedulerError>)
        requires
            old(self).wf(),
        ensures
            final(self).wf(),
            old(self).queued().len() >= old(self).capacity() ==> {
                &&& answer == Err::<String, TaskSchedulerError>(TaskSchedulerError::QueueFull)
                &&& *final(self) == *old(self)
            },
            old(self).queued().len() < old(self).capacity() ==> {
                &&& answer matches Ok(text) && text@ == hyphenated(task_id)
                &&& accepted(*old(self), *final(self), task_id, payload)
                &&& final(self).queued() == old(self).queued().insert(Task { id: task_id, payload })
                &&& final(self).queued().len() == old(self).queued().len() + 1
                &&& final(self).queued().contains(Task { id: task_id, payload })
                &&& final(self).statuses() == old(self).statuses().insert(task_id, TaskStatus::Ongoing)
            },
    {
        if self.task_queue.len() >= self.max_tasks {
            return Err(TaskSchedulerError::QueueFull);
        }
        let ghost before = *self;
        self.task_storage.insert(task_id, TaskStatus::Ongoing);
        self.task_queue.push(Task { id: task_id, payload });
        proof {
            assert forall|task: Task<T>| #[trigger] self.queued().contains(task) implies self.statuses().contains_key(task.id) by {
                if task != (Task { id: task_id, payload }) {
                    assert(before.queued().count(task) == self.queued().count(task));
                    assert(before.queued().contains(task));
                }
            }
        }
        Ok(id_text(task_id))
    }

    /// Submits a task under a fresh random id: refused with `QueueFull` when
    /// the queue holds as many tasks as it may, and then nothing changes;
    /// otherwise queued, recorded as ongoing, and answered with the id's text.
    pub fn submit_task(&mut self, payload: TaskPayload<T>) -> (answer: Result<String, TaskSchedulerError>)
        requires
            old(self).wf(),
        ensures
            final(self).wf(),
            old(self).queued().len() >= old(self).capacity() ==> {
                &&& answer == Err::<String, TaskSchedulerError>(TaskSchedulerError::QueueFull)
                &&& *final(self) == *old(self)
            },
            old(self).queued().len() < old(self).capacity() ==> exists|task_id: u128| {
                &&& is_random_uuid(task_id)
                &&& answer matches Ok(text) && text@ == hyphenated(task_id)
                &&& #[trigger] accepted(*old(self), *final(self), task_id, payload)
                &&& final(self).queued() == old(self).queued().insert(Task { id: task_id, payload })
                &&& final(self).queued().len() == old(self).queued().len() + 1
                &&& final(self).statuses() == old(self).statuses().insert(task_id, TaskStatus::Ongoing)
            },
    {
        if self.task_queue.len() >= self.max_tasks {
            return Err(TaskSchedulerError::QueueFull);
        }
        let task_id = new_task_id();
        let answer = self.submit_task_as(task_id, payload);
        proof {
            assert(accepted(*old(self), *self, task_id, payload));
        }
        answer
    }

    /// The status of the task that a text names; `NoSuchId` where the text
    /// names no id or the id has no recorded status.
    pub fn get_task_status(&self, task_id: &str) -> (answer: Result<TaskStatus, TaskSchedulerError>)
        ensures
            answer == status_lookup(self.statuses(), id_of_text(task_id@)),
            answer is Ok <==> (id_of_text(task_id@) matches Some(id) && self.statuses().contains_key(id)),
            answer matches Ok(status) ==> status == self.statuses()[id_of_text(task_id@)->0],
            answer matches Err(error) ==> error == TaskSchedulerError::NoSuchId,
    {
        self.task_storage.task_status(task_id)
    }

    /// The id of every task with a recorded status, each once, in no
    /// promised order.
    pub fn get_tasks(&self) -> (ids: Vec<u128>)
        ensures
            ids@.no_duplicates(),
            ids@.to_set() == self.statuses().dom(),
    {
        self.task_storage.task_ids()
    }

    /// What the processing loop does next: take out the task to serve first,
    /// or sleep when none waits.
    pub fn poll(&mut self) -> (action: SchedulerAction<T>)
        requires
            old(self).wf(),
        ensures
            final(self).wf(),
            final(self).statuses() == old(self).statuses(),
            final(self).capacity() == old(self).capacity(),
            match action {
                SchedulerAction::Sleep => old(self).queued().len() == 0 && final(self).queued() == old(self).queued(),
                SchedulerAction::Process(task) => {
                    &&& served_first(old(self).queued(), task)
                    &&& final(self).queued() == old(self).queued().remove(task)
                },
            },
    {
        let ghost before = *self;
        match self.task_queue.pop() {
            Some(task) => {
                proof {
                    assert forall|other: Task<T>| #[trigger] self.queued().contains(other) implies self.statuses().contains_key(other.id) by {
                        assert(before.queued().count(other) >= self.queued().count(other));
                        assert(before.queued().contains(other));
                    }
                }
                SchedulerAction::Process(task)
            },
            None => SchedulerAction::Sleep,
        }
    }

    /// Records how the processing of a task ended: `Completed` on success,
    /// `Failed` with the message otherwise. An id without a recorded status
    /// stays without one.
    pub fn finish_task(&mut self, task_id: u128, result: Result<(), String>)
        requires
            old(self).wf(),
        ensures
            final(self).wf(),
            finished(*old(self), *final(self), task_id, result),
            final(self).queued() == old(self).queued(),
            old(self).statuses().contains_key(task_id) && result is Ok ==> final(self).statuses() == old(self).statuses().insert(task_id, TaskStatus::Completed),
            old(self).statuses().contains_key(task_id) ==> (result matches Err(message) ==> final(self).statuses() == old(self).statuses().insert(task_id, TaskStatus::Failed(message))),
            !old(self).statuses().contains_key(task_id) ==> final(self).statuses() == old(self).statuses(),
    {
        let status = status_from_result(result);
        self.task_storage.update(task_id, status);
    }
}

/// An accepted task waits in the queue, whatever its payload and priority:
/// the queue gains exactly that task, and its status is recorded as ongoing.
pub proof fn lemma_accepted_task_waits<T>(
    before: TaskScheduler<T>,
    after: TaskScheduler<T>,
    task_id: u128,
    payload: TaskPayload<T>,
)
    requires
        accepted(before, after, task_id, payload),
    ensures
        after.queued() == before.queued().insert(Task { id: task_id, payload }),
        after.queued().len() == before.queued().len() + 1,
        after.queued().contains(Task { id: task_id, payload }),
        after.statuses().contains_key(task_id),
        after.statuses()[task_id] == TaskStatus::Ongoing,
{
}

/// A processing error is recorded as a failure with its exact message, and
/// only success is recorded as completed.
pub proof fn lemma_finished_status_follows_result(message: String, result: Result<(), String>)
    ensures
        finished_status(Err(message)) == TaskStatus::Failed(message),
        finished_status(Ok(())) == TaskStatus::Completed,
        finished_status(result) == TaskStatus::Completed <==> result is Ok,
{
}

/// Right after a task is accepted, a status query with the text that the
/// submission answered reports the task ongoing, and the task is among those
/// listed.
pub proof fn lemma_status_after_submit<T>(
    before: TaskScheduler<T>,
    after: TaskScheduler<T>,
    task_id: u128,
    payload: TaskPayload<T>,
)
    requires
        accepted(before, after, task_id, payload),
    ensures
        status_lookup(after.statuses(), id_of_text(hyphenated(task_id))) == Ok::<TaskStatus, TaskSchedulerError>(TaskStatus::Ongoing),
        after.statuses().dom().contains(task_id),
{
    lemma_text_names_id(task_id);
}

/// Recording how the processing of a task ended neither drops nor adds a
/// recorded task id.
pub proof fn lemma_finish_keeps_records<T>(
    before: TaskScheduler<T>,
    after: TaskScheduler<T>,
    task_id: u128,
    result: Result<(), String>,
)
    requires
        finished(before, after, task_id, result),
    ensures
        after.statuses().dom() == before.statuses().dom(),
{
}

/// Once the processing of a task with a recorded status has finished, a
/// status query with the task's text reports the status its result gives.
pub proof fn lemma_status_after_finish<T>(
    before: TaskScheduler<T>,
    after: TaskScheduler<T>,
    task_id: u128,
    result: Result<(), String>,
)
    requires
        finished(before, after, task_id, result),
        before.statuses().contains_key(task_id),
    ensures
        status_lookup(after.statuses(), id_of_text(hyphenated(task_id))) == Ok::<TaskStatus, TaskSchedulerError>(finished_status(result)),
{
    lemma_text_names_id(task_id);
}

} // verus!
