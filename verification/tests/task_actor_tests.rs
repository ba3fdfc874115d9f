use task_core::environment::{UUID_FORM_MASK, UUID_RANDOM_FORM};
use task_core::{GetTaskStatus, TaskActor, TaskStatus};

#[test]
fn test_task_actor_creation() {
    let task = TaskActor::new("Test Task".to_string(), "Test message".to_string(), 5000);

    assert_eq!(task.metadata.name, "Test Task");
    assert_eq!(task.metadata.message, "Test message");
    assert_eq!(task.metadata.status, TaskStatus::InProgress);
    assert!(task.metadata.result.is_none());
    assert!(task.metadata.error.is_none());
    assert!(task.metadata.finished_at.is_none());
}

#[test]
fn test_task_uuid_uniqueness() {
    let task1 = TaskActor::new("Task 1".to_string(), "Message 1".to_string(), 5000);
    let task2 = TaskActor::new("Task 2".to_string(), "Message 2".to_string(), 5000);

    // Each task should have a unique ID
    assert_ne!(task1.metadata.id, task2.metadata.id);
}

#[test]
fn test_task_status_query() {
    let task = TaskActor::new("Query Test".to_string(), "Query message".to_string(), 5000);

    let status = task.get_status(GetTaskStatus);

    assert_eq!(status.name, "Query Test");
    assert_eq!(status.message, "Query message");
    assert_eq!(status.status, TaskStatus::InProgress);
}

#[test]
fn test_task_metadata_update_on_completion() {
    let mut task = TaskActor::new("Metadata Test".to_string(), "Test message".to_string(), 5000);

    // Simulate completion
    task.metadata.status = TaskStatus::Completed;
    task.metadata.finished_at = Some(chrono::Utc::now().timestamp_millis());
    task.metadata.result = Some("Test result".to_string());

    assert_eq!(task.metadata.status, TaskStatus::Completed);
    assert!(task.metadata.finished_at.is_some());
    assert_eq!(task.metadata.result, Some("Test result".to_string()));
    assert!(task.metadata.error.is_none());
}

#[test]
fn test_task_metadata_update_on_error() {
    let mut task =
        TaskActor::new("Error Metadata Test".to_string(), "Test message".to_string(), 5000);

    // Simulate error
    task.metadata.status = TaskStatus::Error;
    task.metadata.finished_at = Some(chrono::Utc::now().timestamp_millis());
    task.metadata.error = Some("Test error".to_string());

    assert_eq!(task.metadata.status, TaskStatus::Error);
    assert!(task.metadata.finished_at.is_some());
    assert_eq!(task.metadata.error, Some("Test error".to_string()));
    assert!(task.metadata.result.is_none());
}

#[test]
fn new_worker_is_exactly_the_fresh_record() {
    let task = TaskActor::new_at(42, 1_700_000_000_000, "n".to_string(), "m".to_string(), 5000);
    let m = &task.metadata;
    assert_eq!(m.id, 42);
    assert_eq!(m.started_at, 1_700_000_000_000);
    assert_eq!(m.name, "n");
    assert_eq!(m.message, "m");
    assert_eq!(m.status, TaskStatus::InProgress);
    assert_eq!(m.timeout_ms, 5000);
    assert_eq!(m.finished_at, None);
    assert_eq!(m.result, None);
    assert_eq!(m.error, None);
    assert_eq!(m.actual_duration_ms, None);
    assert_eq!(m.cancelled_at, None);
    assert_eq!(m.timeout_at, None);
    assert!(m.is_consistent());
}

#[test]
fn worker_timeout_is_raised_to_the_floor() {
    assert_eq!(TaskActor::new_at(1, 0, String::new(), String::new(), 0).metadata.timeout_ms, 100);
    assert_eq!(TaskActor::new_at(1, 0, String::new(), String::new(), 99).metadata.timeout_ms, 100);
    assert_eq!(TaskActor::new_at(1, 0, String::new(), String::new(), 100).metadata.timeout_ms, 100);
    assert_eq!(TaskActor::new_at(1, 0, String::new(), String::new(), 101).metadata.timeout_ms, 101);
    assert_eq!(
        TaskActor::new_at(1, 0, String::new(), String::new(), u64::MAX).metadata.timeout_ms,
        u64::MAX
    );
    assert_eq!(TaskActor::new(String::new(), String::new(), 5).metadata.timeout_ms, 100);
}

#[test]
fn new_worker_has_a_random_uuid_and_the_current_time() {
    let before = chrono::Utc::now().timestamp_millis();
    let task = TaskActor::new("a".to_string(), "b".to_string(), 5000);
    let after = chrono::Utc::now().timestamp_millis();

    assert_eq!(task.metadata.id & UUID_FORM_MASK, UUID_RANDOM_FORM);
    let id = uuid::Uuid::from_u128(task.metadata.id);
    assert_eq!(id.get_version_num(), 4);
    assert!(before <= task.metadata.started_at && task.metadata.started_at <= after);
    assert!(task.metadata.is_consistent());
}
