use vstd::prelude::*;
use std::collections::HashMap;
use vstd::std_specs::iter::IteratorSpec;
use crate::ids::{hyphenated, id_of_text, parse_id};
use crate::task::{StatusView, TaskSchedulerError, TaskStatus};

verus! {

broadcast use vstd::std_specs::hash::group_hash_axioms;

/// The answer to a status query for `id` (`None` for a text that names no
/// id) among the recorded statuses.
pub open spec fn status_lookup(
    statuses: Map<u128, TaskStatus>,
    id: Option<u128>,
) -> Result<TaskStatus, TaskSchedulerError> {
    match id {
        Some(id) => if statuses.contains_key(id) {
            Ok(statuses[id])
        } else {
            Err(TaskSchedulerError::NoSuchId)
        },
        None => Err(TaskSchedulerError::NoSuchId),
    }
}

/// The characters of an optional text.
pub open spec fn optional_text(text: Option<String>) -> Option<Seq<char>> {
    match text {
        Some(text) => Some(text@),
        None => None,
    }
}

/// The `status` and `error_message` columns under which a database row
/// records a status.
pub open spec fn status_row(status: StatusView) -> (Seq<char>, Option<Seq<char>>) {
    match status {
        StatusView::Ongoing => ("Ongoing"@, None),
        StatusView::Completed => ("Completed"@, None),
        StatusView::Failed(message) => ("Failed"@, Some(message)),
    }
}

/// The status that a database row's `status` and `error_message` columns
/// record: a failure whose message is "Unknown status" where the row does not
/// say what the failure was or names no known status.
pub open spec fn status_of_row(status: Seq<char>, error_message: Option<Seq<char>>) -> StatusView {
    if status == "Ongoing"@ {
        StatusView::Ongoing
    } else if status == "Completed"@ {
        StatusView::Completed
    } else if status == "Failed"@ {
        StatusView::Failed(
            match error_message {
                Some(message) => message,
                None => "Unknown status"@,
            },
        )
    } else {
        StatusView::Failed("Unknown status"@)
    }
}

/// Whether two texts hold the same characters.
fn same_text(a: &str, b: &str) -> (same: bool)
    ensures
        same == (a@ == b@),
{
    String::from_str(a) == String::from_str(b)
}

/// The three status names of a row differ from one another.
proof fn lemma_status_names_differ()
    ensures
        "Completed"@ != "Ongoing"@,
        "Failed"@ != "Ongoing"@,
        "Failed"@ != "Completed"@,
{
    reveal_strlit("Ongoing");
    reveal_strlit("Completed");
    reveal_strlit("Failed");
    assert("Completed"@.len() != "Ongoing"@.len());
    assert("Failed"@.len() != "Ongoing"@.len());
    assert("Failed"@.len() != "Completed"@.len());
}

/// The database columns that record a status.
pub fn status_to_row(status: &TaskStatus) -> (row: (String, Option<String>))
    ensures
        (row.0@, optional_text(row.1)) == status_row(status@),
        *status == TaskStatus::Ongoing ==> row.0@ == "Ongoing"@ && row.1 is None,
        *status == TaskStatus::Completed ==> row.0@ == "Completed"@ && row.1 is None,
        status matches TaskStatus::Failed(message) ==> (row.0@ == "Failed"@ && (row.1 matches Some(stored) && stored@ == message@)),
{
    match status {
        TaskStatus::Ongoing => (String::from_str("Ongoing"), None),
        TaskStatus::Completed => (String::from_str("Completed"), None),
        TaskStatus::Failed(message) => (String::from_str("Failed"), Some(message.clone())),
    }
}

/// The status that a database row records.
pub fn status_from_row(status: &str, error_message: Option<String>) -> (recorded: TaskStatus)
    ensures
        recorded@ == status_of_row(status@, optional_text(error_message)),
        status@ == "Ongoing"@ ==> recorded == TaskStatus::Ongoing,
        status@ == "Completed"@ ==> recorded == TaskStatus::Completed,
        status@ == "Failed"@ ==> (recorded matches TaskStatus::Failed(message) && message@ == match error_message {
            Some(stored) => stored@,
            None => "Unknown status"@,
        }),
{
    proof {
        lemma_status_names_differ();
    }
    if same_text(status, "Ongoing") {
        TaskStatus::Ongoing
    } else if same_text(status, "Completed") {
        TaskStatus::Completed
    } else if same_text(status, "Failed") {
        match error_message {
            Some(message) => TaskStatus::Failed(message),
            None => TaskStatus::Failed(String::from_str("Unknown status")),
        }
    } else {
        TaskStatus::Failed(String::from_str("Unknown status"))
    }
}

/// Reading back the row that records a status gives that status.
pub proof fn lemma_status_row_round_trip(status: StatusView)
    ensures
        status_of_row(status_row(status).0, status_row(status).1) == status,
{
    lemma_status_names_differ();
}

/// A status query answers a status only for an id that has one recorded,
/// and then that status; every other query, for an unknown id or a text that
/// names none, answers `NoSuchId`.
pub proof fn lemma_lookup_answers_recorded_only(statuses: Map<u128, TaskStatus>, id: u128)
    ensures
        status_lookup(statuses, None) == Err::<TaskStatus, TaskSchedulerError>(TaskSchedulerError::NoSuchId),
        !statuses.contains_key(id) ==> status_lookup(statuses, Some(id)) == Err::<TaskStatus, TaskSchedulerError>(TaskSchedulerError::NoSuchId),
        statuses.contains_key(id) ==> status_lookup(statuses, Some(id)) == Ok::<TaskStatus, TaskSchedulerError>(statuses[id]),
        status_lookup(statuses, Some(id)) matches Ok(status) ==> (statuses.contains_key(id) && statuses[id] == status),
{
}

/// The row of a status names it: `Ongoing` and `Completed` rows carry no
/// message, a failure is stored under `Failed` with its exact message.
pub proof fn lemma_status_row_names_status(message: Seq<char>)
    ensures
        status_row(StatusView::Ongoing) == ("Ongoing"@, None::<Seq<char>>),
        status_row(StatusView::Completed) == ("Completed"@, None::<Seq<char>>),
        status_row(StatusView::Failed(message)) == ("Failed"@, Some(message)),
{
}

/// A row is read by its status column alone, except that a failure takes its
/// message from the row: `Ongoing` and `Completed` rows read back as such
/// whatever their message column holds, a `Failed` row as a failure with its
/// message, or with "Unknown status" where it has none, and any other status
/// column as a failure with "Unknown status".
pub proof fn lemma_row_reads_its_status(status: Seq<char>, error_message: Option<Seq<char>>, message: Seq<char>)
    ensures
        status_of_row("Ongoing"@, error_message) == StatusView::Ongoing,
        status_of_row("Completed"@, error_message) == StatusView::Completed,
        status_of_row("Failed"@, Some(message)) == StatusView::Failed(message),
        status_of_row("Failed"@, None) == StatusView::Failed("Unknown status"@),
        status != "Ongoing"@ && status != "Completed"@ && status != "Failed"@
            ==> status_of_row(status, error_message) == StatusView::Failed("Unknown status"@),
{
    lemma_status_names_differ();
}

/// The status of every task, kept in memory.
pub struct InMemoryStorage {
    tasks: HashMap<u128, TaskStatus>,
}

impl View for InMemoryStorage {
    type V = Map<u128, TaskStatus>;

    /// The recorded status of each task id.
    closed spec fn view(&self) -> Map<u128, TaskStatus> {
        self.tasks@
    }
}

impl InMemoryStorage {
    /// A storage that records no task.
    pub fn new() -> (storage: Self)
        ensures
            storage@ == Map::<u128, TaskStatus>::empty(),
    {
        InMemoryStorage { tasks: HashMap::new() }
    }

    /// Records `status` for a task, whether or not one was recorded before.
    pub fn insert(&mut self, task_id: u128, status: TaskStatus)
        ensures
            final(self)@ == old(self)@.insert(task_id, status),
    {
        self.tasks.insert(task_id, status);
    }

    /// Replaces the status of a task that is recorded; does nothing for an
    /// id that is not.
    pub fn update(&mut self, task_id: u128, status: TaskStatus)
        ensures
            final(self)@ == if old(self)@.contains_key(task_id) {
                old(self)@.insert(task_id, status)
            } else {
                old(self)@
            },
    {
        if self.tasks.contains_key(&task_id) {
            self.tasks.insert(task_id, status);
        }
    }

    /// A copy of every recorded status.
    pub fn get_tasks(&self) -> (tasks: HashMap<u128, TaskStatus>)
        ensures
            tasks@ == self@,
    {
        self.tasks.clone()
    }

    /// A separate copy of this storage, with the same records.
    pub fn snapshot(&self) -> (copy: InMemoryStorage)
        ensures
            copy@ == self@,
    {
        InMemoryStorage { tasks: self.tasks.clone() }
    }

    /// The status recorded for an id, if one is.
    pub fn get(&self, task_id: u128) -> (status: Option<TaskStatus>)
        ensures
            status == if self@.contains_key(task_id) {
                Some(self@[task_id])
            } else {
                None::<TaskStatus>
            },
    {
        match self.tasks.get(&task_id) {
            Some(status) => Some(status.duplicate()),
            None => None,
        }
    }

    /// The status of the task that a text names: `NoSuchId` where the text
    /// names no id or no status is recorded for it.
    pub fn task_status(&self, task_id: &str) -> (answer: Result<TaskStatus, TaskSchedulerError>)
        ensures
            answer == status_lookup(self@, id_of_text(task_id@)),
            answer is Ok <==> (id_of_text(task_id@) matches Some(id) && self@.contains_key(id)),
            answer matches Ok(status) ==> status == self@[id_of_text(task_id@)->0],
            answer matches Err(error) ==> error == TaskSchedulerError::NoSuchId,
    {
        let id = parse_id(task_id);
        proof {
            if exists|x: u128| #[trigger] hyphenated(x) == task_id@ {
                let x = choose|x: u128| #[trigger] hyphenated(x) == task_id@;
                assert(id == Some(x));
            }
        }
        match id {
            Some(id) => match self.get(id) {
                Some(status) => Ok(status),
                None => Err(TaskSchedulerError::NoSuchId),
            },
            None => Err(TaskSchedulerError::NoSuchId),
        }
    }

    /// The id of every recorded task, each once, in no promised order.
    pub fn task_ids(&self) -> (ids: Vec<u128>)
        ensures
            ids@.no_duplicates(),
            ids@.to_set() == self@.dom(),
    {
        let ghost keys = vstd::std_specs::hash::spec_keys_iter(&self.tasks).remaining();
        let mut ids: Vec<u128> = Vec::new();
        for id in it: self.tasks.keys()
            invariant
                it.seq() == keys,
                ids@.len() == it.index(),
                forall|i: int| 0 <= i < it.index() ==> ids@[i] == *keys[i],
        {
            ids.push(*id);
        }
        proof {
            assert(ids@ =~= keys.unref());
        }
        ids
    }
}

} // verus!
