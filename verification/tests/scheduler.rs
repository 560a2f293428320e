use task_scheduler::queue::TaskQueue;
use task_scheduler::scheduler::{status_from_result, SchedulerAction, TaskScheduler, POLL_INTERVAL_MS};
use task_scheduler::storage::InMemoryStorage;
use task_scheduler::task::{Task, TaskPayload, TaskSchedulerError, TaskStatus};
use std::cmp::Ordering;

fn task(id: u128, priority: u16) -> Task<&'static str> {
    Task { id, payload: TaskPayload { priority, task_type: "work" } }
}

fn ids_in_service_order(queue: &mut TaskQueue<&'static str>) -> Vec<u128> {
    let mut ids = Vec::new();
    while let Some(task) = queue.pop() {
        ids.push(task.id);
    }
    ids
}

#[test]
fn queue_serves_lowest_priority_number_first() {
    let mut queue = TaskQueue::new();
    queue.push(task(1, 5));
    queue.push(task(2, 1));
    queue.push(task(3, 3));
    queue.push(task(4, 0));
    assert_eq!(queue.len(), 4);
    assert_eq!(ids_in_service_order(&mut queue), vec![4, 2, 3, 1]);
    assert!(queue.is_empty());
    assert!(queue.pop().is_none());
}

#[test]
fn queue_breaks_ties_by_greatest_id() {
    let mut queue = TaskQueue::new();
    queue.push(task(10, 2));
    queue.push(task(30, 2));
    queue.push(task(20, 2));
    queue.push(task(5, 1));
    assert_eq!(ids_in_service_order(&mut queue), vec![5, 30, 20, 10]);
}

#[test]
fn task_order_follows_service_order() {
    let urgent = task(1, 0);
    let relaxed = task(2, 9);
    assert_eq!(urgent.cmp(&relaxed), Ordering::Greater);
    assert_eq!(relaxed.cmp(&urgent), Ordering::Less);
    assert_eq!(task(7, 4).cmp(&task(7, 4)), Ordering::Equal);
    assert_eq!(task(8, 4).cmp(&task(7, 4)), Ordering::Greater);
    assert!(urgent > relaxed);
    assert!(task(8, 4) == task(8, 4));
    assert!(task(8, 4) != task(8, 5));
    assert_eq!(urgent.partial_cmp(&relaxed), Some(Ordering::Greater));
    assert!(urgent.outranks(&relaxed));
    assert!(!relaxed.outranks(&urgent));
}

#[test]
fn submitted_task_is_ongoing_and_listed() {
    let mut scheduler: TaskScheduler<&'static str> = TaskScheduler::new(10, InMemoryStorage::new());
    let text = scheduler
        .submit_task(TaskPayload { priority: 1, task_type: "job" })
        .unwrap();
    assert_eq!(text.len(), 36);
    assert_eq!(scheduler.get_task_status(&text), Ok(TaskStatus::Ongoing));
    let ids = scheduler.get_tasks();
    assert_eq!(ids.len(), 1);
    assert_eq!(format!("{:032x}", ids[0]), text.replace('-', ""));
    assert_eq!(scheduler.queue_len(), 1);
}

#[test]
fn submitted_ids_are_random_uuids() {
    let mut scheduler: TaskScheduler<&'static str> = TaskScheduler::new(10, InMemoryStorage::new());
    let text = scheduler
        .submit_task(TaskPayload { priority: 1, task_type: "job" })
        .unwrap();
    let chars: Vec<char> = text.chars().collect();
    assert_eq!(chars[8], '-');
    assert_eq!(chars[13], '-');
    assert_eq!(chars[18], '-');
    assert_eq!(chars[23], '-');
    assert_eq!(chars[14], '4');
    assert!(matches!(chars[19], '8' | '9' | 'a' | 'b'));
    assert!(text.chars().all(|c| c == '-' || c.is_ascii_digit() || ('a'..='f').contains(&c)));
}

#[test]
fn submit_under_given_id_answers_its_text() {
    let mut scheduler: TaskScheduler<&'static str> = TaskScheduler::new(2, InMemoryStorage::new());
    let text = scheduler
        .submit_task_as(0x550e8400e29b41d4a716446655440000, TaskPayload { priority: 0, task_type: "a" })
        .unwrap();
    assert_eq!(text, "550e8400-e29b-41d4-a716-446655440000");
    assert_eq!(
        scheduler.get_task_status("550E8400-E29B-41D4-A716-446655440000"),
        Ok(TaskStatus::Ongoing)
    );
    assert_eq!(
        scheduler.get_task_status("550e8400e29b41d4a716446655440000"),
        Ok(TaskStatus::Ongoing)
    );
}

#[test]
fn full_queue_refuses_and_changes_nothing() {
    let mut scheduler: TaskScheduler<&'static str> = TaskScheduler::new(2, InMemoryStorage::new());
    assert!(scheduler.submit_task(TaskPayload { priority: 1, task_type: "a" }).is_ok());
    assert!(scheduler.submit_task(TaskPayload { priority: 1, task_type: "b" }).is_ok());
    assert_eq!(
        scheduler.submit_task(TaskPayload { priority: 0, task_type: "c" }),
        Err(TaskSchedulerError::QueueFull)
    );
    assert_eq!(scheduler.queue_len(), 2);
    assert_eq!(scheduler.get_tasks().len(), 2);
}

#[test]
fn zero_capacity_refuses_every_task() {
    let mut scheduler: TaskScheduler<&'static str> = TaskScheduler::new(0, InMemoryStorage::new());
    assert_eq!(
        scheduler.submit_task(TaskPayload { priority: 1, task_type: "a" }),
        Err(TaskSchedulerError::QueueFull)
    );
    assert!(scheduler.get_tasks().is_empty());
}

#[test]
fn unknown_or_malformed_ids_are_not_found() {
    let scheduler: TaskScheduler<&'static str> = TaskScheduler::new(2, InMemoryStorage::new());
    assert_eq!(
        scheduler.get_task_status("550e8400-e29b-41d4-a716-446655440000"),
        Err(TaskSchedulerError::NoSuchId)
    );
    assert_eq!(scheduler.get_task_status("not-a-uuid"), Err(TaskSchedulerError::NoSuchId));
    assert_eq!(scheduler.get_task_status(""), Err(TaskSchedulerError::NoSuchId));
}

#[test]
fn poll_serves_tasks_then_sleeps() {
    let mut scheduler: TaskScheduler<&'static str> = TaskScheduler::new(5, InMemoryStorage::new());
    scheduler.submit_task_as(1, TaskPayload { priority: 7, task_type: "late" }).unwrap();
    scheduler.submit_task_as(2, TaskPayload { priority: 2, task_type: "early" }).unwrap();
    match scheduler.poll() {
        SchedulerAction::Process(task) => {
            assert_eq!(task.id, 2);
            assert_eq!(task.payload.task_type, "early");
        }
        SchedulerAction::Sleep => panic!("a task waits"),
    }
    match scheduler.poll() {
        SchedulerAction::Process(task) => assert_eq!(task.id, 1),
        SchedulerAction::Sleep => panic!("a task waits"),
    }
    assert!(matches!(scheduler.poll(), SchedulerAction::Sleep));
    assert_eq!(POLL_INTERVAL_MS, 100);
    // Taking a task out keeps its record.
    assert_eq!(scheduler.get_tasks().len(), 2);
}

#[test]
fn finishing_a_task_records_its_result() {
    let mut scheduler: TaskScheduler<&'static str> = TaskScheduler::new(5, InMemoryStorage::new());
    let ok = scheduler.submit_task_as(1, TaskPayload { priority: 1, task_type: "a" }).unwrap();
    let bad = scheduler.submit_task_as(2, TaskPayload { priority: 1, task_type: "b" }).unwrap();
    scheduler.finish_task(1, Ok(()));
    scheduler.finish_task(2, Err("Invalid transfer amount".to_string()));
    assert_eq!(scheduler.get_task_status(&ok), Ok(TaskStatus::Completed));
    assert_eq!(
        scheduler.get_task_status(&bad),
        Ok(TaskStatus::Failed("Invalid transfer amount".to_string()))
    );
}

#[test]
fn finishing_an_unknown_task_records_nothing() {
    let mut scheduler: TaskScheduler<&'static str> = TaskScheduler::new(5, InMemoryStorage::new());
    scheduler.finish_task(42, Ok(()));
    assert!(scheduler.get_tasks().is_empty());
}

#[test]
fn status_follows_the_processing_result() {
    assert_eq!(status_from_result(Ok(())), TaskStatus::Completed);
    assert_eq!(
        status_from_result(Err("boom".to_string())),
        TaskStatus::Failed("boom".to_string())
    );
}

#[test]
fn scheduler_starts_from_the_given_records() {
    let mut storage = InMemoryStorage::new();
    storage.insert(9, TaskStatus::Completed);
    let scheduler: TaskScheduler<&'static str> = TaskScheduler::new(5, storage);
    assert_eq!(scheduler.get_tasks(), vec![9]);
    assert_eq!(scheduler.queue_len(), 0);
    assert_eq!(
        scheduler.get_task_status("00000000-0000-0000-0000-000000000009"),
        Ok(TaskStatus::Completed)
    );
}
