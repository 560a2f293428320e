use vstd::prelude::*;
use std::cmp::Ordering;
use vstd::std_specs::cmp::{PartialEqSpecImpl, PartialOrdSpecImpl};

verus! {

/// Where a task stands.
#[derive(Debug, Clone, PartialEq, Eq)]
pub enum TaskStatus {
    /// Submitted and not yet finished.
    Ongoing,
    /// Processed without error.
    Completed,
    /// Processing failed with the given message.
    Failed(String),
}

/// A status as the contracts speak of it: its message as a sequence of
/// characters.
pub enum StatusView {
    Ongoing,
    Completed,
    Failed(Seq<char>),
}

impl View for TaskStatus {
    type V = StatusView;

    open spec fn view(&self) -> StatusView {
        match self {
            TaskStatus::Ongoing => StatusView::Ongoing,
            TaskStatus::Completed => StatusView::Completed,
            TaskStatus::Failed(message) => StatusView::Failed(message@),
        }
    }
}

impl TaskStatus {
    /// A copy of this status, equal to it.
    pub fn duplicate(&self) -> (copy: TaskStatus)
        ensures
            copy == *self,
    {
        match self {
            TaskStatus::Ongoing => TaskStatus::Ongoing,
            TaskStatus::Completed => TaskStatus::Completed,
            TaskStatus::Failed(message) => TaskStatus::Failed(message.clone()),
        }
    }
}

/// Why the scheduler refused a request.
#[derive(Debug, Clone, Copy, PartialEq, Eq, Structural)]
pub enum TaskSchedulerError {
    /// The queue already holds as many tasks as it may.
    QueueFull,
    /// No task has the given id (or the id is not a UUID).
    NoSuchId,
}

/// The message that describes an error.
pub open spec fn error_message(error: TaskSchedulerError) -> Seq<char> {
    match error {
        TaskSchedulerError::QueueFull => "Task queue is full"@,
        TaskSchedulerError::NoSuchId => "The specific ID was not found"@,
    }
}

/// The HTTP status with which an error is answered.
pub open spec fn error_status_code(error: TaskSchedulerError) -> u16 {
    match error {
        TaskSchedulerError::QueueFull => 429,
        TaskSchedulerError::NoSuchId => 404,
    }
}

impl TaskSchedulerError {
    /// The message that describes this error.
    pub fn message(&self) -> (text: String)
        ensures
            text@ == error_message(*self),
    {
        match self {
            TaskSchedulerError::QueueFull => String::from_str("Task queue is full"),
            TaskSchedulerError::NoSuchId => String::from_str("The specific ID was not found"),
        }
    }

    /// The HTTP status code with which this error is answered: 429 (too many
    /// requests) for a full queue, 404 (not found) for an unknown id.
    pub fn status_code(&self) -> (code: u16)
        ensures
            code == error_status_code(*self),
    {
        match self {
            TaskSchedulerError::QueueFull => 429,
            TaskSchedulerError::NoSuchId => 404,
        }
    }
}

/// The work a Mandelbrot task asks for: an image of `width` by `height`
/// pixels, iterating at most `max_iterations` times per pixel.
#[derive(Debug, Clone, Copy, PartialEq, Eq, Structural)]
pub struct MandelbrotComputeTask {
    pub width: u32,
    pub height: u32,
    pub max_iterations: u32,
}

/// What a client submits: an urgency (lower is more urgent) and the work
/// itself.
pub struct TaskPayload<T> {
    pub priority: u16,
    pub task_type: T,
}

/// A submitted task: its id and its payload.
pub struct Task<T> {
    pub id: u128,
    pub payload: TaskPayload<T>,
}

/// Whether task `a` is served before task `b`: it has a lower priority
/// number, or the same priority and a greater id.
pub open spec fn outranks<T>(a: Task<T>, b: Task<T>) -> bool {
    ||| a.payload.priority < b.payload.priority
    ||| (a.payload.priority == b.payload.priority && a.id > b.id)
}

/// Whether two tasks have the same place in the order of service.
pub open spec fn same_rank<T>(a: Task<T>, b: Task<T>) -> bool {
    a.payload.priority == b.payload.priority && a.id == b.id
}

/// How task `a` compares with task `b` in the order of service: `Greater`
/// when `a` is served first.
pub open spec fn rank_order<T>(a: Task<T>, b: Task<T>) -> Ordering {
    if outranks(a, b) {
        Ordering::Greater
    } else if outranks(b, a) {
        Ordering::Less
    } else {
        Ordering::Equal
    }
}

/// The order of service compares priorities first, the lower number going
/// first, and breaks ties by id, the greater going first; two tasks compare
/// equal exactly when both priority and id agree.
pub proof fn lemma_rank_order_compares_priority_then_id<T>(a: Task<T>, b: Task<T>)
    ensures
        a.payload.priority < b.payload.priority ==> rank_order(a, b) == Ordering::Greater,
        a.payload.priority > b.payload.priority ==> rank_order(a, b) == Ordering::Less,
        a.payload.priority == b.payload.priority && a.id > b.id ==> rank_order(a, b) == Ordering::Greater,
        a.payload.priority == b.payload.priority && a.id < b.id ==> rank_order(a, b) == Ordering::Less,
        rank_order(a, b) == Ordering::Equal <==> (a.payload.priority == b.payload.priority && a.id == b.id),
        outranks(a, b) ==> !outranks(b, a),
{
}

/// A full queue is answered 429 (too many requests) with "Task queue is
/// full"; an unknown id 404 (not found) with "The specific ID was not found".
pub proof fn lemma_error_answers()
    ensures
        error_status_code(TaskSchedulerError::QueueFull) == 429,
        error_status_code(TaskSchedulerError::NoSuchId) == 404,
        error_message(TaskSchedulerError::QueueFull) == "Task queue is full"@,
        error_message(TaskSchedulerError::NoSuchId) == "The specific ID was not found"@,
{
}

/// Two tasks are equal when they have the same priority and the same id.
impl<T> PartialEq for Task<T> {
    fn eq(&self, other: &Self) -> (equal: bool) {
        self.payload.priority == other.payload.priority && self.id == other.id
    }
}

impl<T> PartialEqSpecImpl for Task<T> {
    open spec fn obeys_eq_spec() -> bool {
        true
    }

    open spec fn eq_spec(&self, other: &Self) -> bool {
        same_rank(*self, *other)
    }
}

impl<T> Eq for Task<T> {
}

/// Tasks are ordered by the order of service: the greater is served first.
impl<T> PartialOrd for Task<T> {
    fn partial_cmp(&self, other: &Self) -> (order: Option<Ordering>) {
        Some(self.cmp(other))
    }
}

impl<T> PartialOrdSpecImpl for Task<T> {
    open spec fn obeys_partial_cmp_spec() -> bool {
        true
    }

    open spec fn partial_cmp_spec(&self, other: &Self) -> Option<Ordering> {
        Some(rank_order(*self, *other))
    }
}

impl<T> Task<T> {
    /// Whether `self` is served ahead of `other`.
    pub fn outranks(&self, other: &Self) -> (first: bool)
        ensures
            first == outranks(*self, *other),
    {
        self.payload.priority < other.payload.priority || (self.payload.priority
            == other.payload.priority && self.id > other.id)
    }

    /// Compares two tasks by the order in which the queue serves them: the
    /// greater one is served first.
    pub fn cmp(&self, other: &Self) -> (order: Ordering)
        ensures
            (order == Ordering::Greater) == outranks(*self, *other),
            (order == Ordering::Less) == outranks(*other, *self),
            (order == Ordering::Equal) == same_rank(*self, *other),
            order == rank_order(*self, *other),
    {
        if self.payload.priority < other.payload.priority {
            Ordering::Greater
        } else if self.payload.priority > other.payload.priority {
            Ordering::Less
        } else if self.id > other.id {
            Ordering::Greater
        } else if self.id < other.id {
            Ordering::Less
        } else {
            Ordering::Equal
        }
    }
}

} // verus!
