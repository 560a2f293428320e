use task_scheduler::storage::{status_from_row, status_to_row, InMemoryStorage};
use task_scheduler::task::{TaskSchedulerError, TaskStatus};

#[test]
fn insert_then_get_gives_the_status() {
    let mut storage = InMemoryStorage::new();
    storage.insert(1, TaskStatus::Ongoing);
    assert_eq!(storage.get(1), Some(TaskStatus::Ongoing));
    assert_eq!(storage.get(2), None);
    storage.insert(1, TaskStatus::Completed);
    assert_eq!(storage.get(1), Some(TaskStatus::Completed));
}

#[test]
fn update_changes_only_recorded_tasks() {
    let mut storage = InMemoryStorage::new();
    storage.insert(1, TaskStatus::Ongoing);
    storage.update(1, TaskStatus::Failed("x".to_string()));
    storage.update(2, TaskStatus::Completed);
    assert_eq!(storage.get(1), Some(TaskStatus::Failed("x".to_string())));
    assert_eq!(storage.get(2), None);
    assert_eq!(storage.get_tasks().len(), 1);
}

#[test]
fn get_tasks_copies_every_record() {
    let mut storage = InMemoryStorage::new();
    storage.insert(1, TaskStatus::Ongoing);
    storage.insert(2, TaskStatus::Completed);
    let tasks = storage.get_tasks();
    assert_eq!(tasks.len(), 2);
    assert_eq!(tasks.get(&1), Some(&TaskStatus::Ongoing));
    assert_eq!(tasks.get(&2), Some(&TaskStatus::Completed));
    let mut ids = storage.task_ids();
    ids.sort();
    assert_eq!(ids, vec![1, 2]);
}

#[test]
fn task_status_reads_the_text_of_an_id() {
    let mut storage = InMemoryStorage::new();
    storage.insert(0xabcdef, TaskStatus::Completed);
    assert_eq!(
        storage.task_status("00000000-0000-0000-0000-000000abcdef"),
        Ok(TaskStatus::Completed)
    );
    assert_eq!(
        storage.task_status("{00000000-0000-0000-0000-000000abcdef}"),
        Ok(TaskStatus::Completed)
    );
    assert_eq!(
        storage.task_status("00000000-0000-0000-0000-000000abcde0"),
        Err(TaskSchedulerError::NoSuchId)
    );
    assert_eq!(storage.task_status("abcdef"), Err(TaskSchedulerError::NoSuchId));
}

#[test]
fn rows_record_statuses() {
    assert_eq!(status_to_row(&TaskStatus::Ongoing), ("Ongoing".to_string(), None));
    assert_eq!(status_to_row(&TaskStatus::Completed), ("Completed".to_string(), None));
    assert_eq!(
        status_to_row(&TaskStatus::Failed("no funds".to_string())),
        ("Failed".to_string(), Some("no funds".to_string()))
    );
}

#[test]
fn rows_read_back_as_statuses() {
    assert_eq!(status_from_row("Ongoing", None), TaskStatus::Ongoing);
    assert_eq!(status_from_row("Completed", Some("ignored".to_string())), TaskStatus::Completed);
    assert_eq!(
        status_from_row("Failed", Some("no funds".to_string())),
        TaskStatus::Failed("no funds".to_string())
    );
    assert_eq!(
        status_from_row("Failed", None),
        TaskStatus::Failed("Unknown status".to_string())
    );
    assert_eq!(
        status_from_row("Paused", Some("x".to_string())),
        TaskStatus::Failed("Unknown status".to_string())
    );
}

#[test]
fn row_round_trip() {
    for status in [
        TaskStatus::Ongoing,
        TaskStatus::Completed,
        TaskStatus::Failed("timeout".to_string()),
    ] {
        let (column, message) = status_to_row(&status);
        assert_eq!(status_from_row(&column, message), status);
    }
}

#[test]
fn duplicate_is_equal() {
    let status = TaskStatus::Failed("m".to_string());
    assert_eq!(status.duplicate(), status);
}

#[test]
fn errors_have_messages_and_codes() {
    assert_eq!(TaskSchedulerError::QueueFull.message(), "Task queue is full");
    assert_eq!(TaskSchedulerError::NoSuchId.message(), "The specific ID was not found");
    assert_eq!(TaskSchedulerError::QueueFull.status_code(), 429);
    assert_eq!(TaskSchedulerError::NoSuchId.status_code(), 404);
}
