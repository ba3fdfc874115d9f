use task_core::{ApiResponse, TaskListResponse, TaskMetadata, TaskStatus, TaskTypeConfig};

#[test]
fn success_response_carries_the_data() {
    let response = ApiResponse::success("test data".to_string());
    assert!(response.success);
    assert_eq!(response.data, Some("test data".to_string()));
    assert!(response.error.is_none());
}

#[test]
fn error_response_carries_the_message() {
    let response: ApiResponse<String> = ApiResponse::error("test error".to_string());
    assert!(!response.success);
    assert!(response.data.is_none());
    assert_eq!(response.error, Some("test error".to_string()));
}

#[test]
fn task_list_counts_its_tasks() {
    let empty = TaskListResponse::new(Vec::new());
    assert_eq!(empty.total, 0);
    assert!(empty.tasks.is_empty());

    let row = |id| TaskMetadata {
        id,
        name: "Test Task".to_string(),
        message: "Test message".to_string(),
        status: TaskStatus::Completed,
        started_at: 0,
        finished_at: Some(10),
        result: Some("Success".to_string()),
        error: None,
        timeout_ms: 5000,
        actual_duration_ms: Some(10),
        cancelled_at: None,
        timeout_at: None,
    };
    let list = TaskListResponse::new(vec![row(1), row(2), row(3)]);
    assert_eq!(list.total, 3);
    assert_eq!(list.tasks.len(), 3);
    assert_eq!(list.tasks[1].id, 2);
}

#[test]
fn dialog_configurations() {
    let quick = TaskTypeConfig::get_config("quick");
    assert_eq!(quick.name, "Quick Task");
    assert_eq!(quick.badge_class, "badge-quick");
    assert_eq!(quick.placeholder, "Quick task message (completes in ~2s)");
    assert_eq!(quick.description, "A fast task that completes in approximately 2 seconds");
    assert_eq!(quick.default_timeout, 2000);
    assert!(!quick.has_custom_options);

    let long = TaskTypeConfig::get_config("long");
    assert_eq!(long.name, "Long Task");
    assert_eq!(long.badge_class, "badge-long");
    assert_eq!(long.placeholder, "Long task message (completes in ~10s)");
    assert_eq!(
        long.description,
        "A longer task that takes approximately 10 seconds to complete"
    );
    assert_eq!(long.default_timeout, 10000);
    assert!(!long.has_custom_options);

    let error = TaskTypeConfig::get_config("error");
    assert_eq!(error.name, "Error Task");
    assert_eq!(error.badge_class, "badge-error");
    assert_eq!(error.placeholder, "Error task message (will fail for testing)");
    assert_eq!(error.description, "A task designed to fail for testing error handling");
    assert_eq!(error.default_timeout, 5000);
    assert!(!error.has_custom_options);

    let custom = TaskTypeConfig::get_config("custom");
    assert_eq!(custom.name, "Custom Task");
    assert_eq!(custom.badge_class, "badge-custom");
    assert_eq!(custom.placeholder, "Custom task message");
    assert_eq!(
        custom.description,
        "A fully customizable task with configurable timeout and failure rate"
    );
    assert_eq!(custom.default_timeout, 5000);
    assert!(custom.has_custom_options);
}

#[test]
fn unknown_kind_gets_the_quick_configuration() {
    for name in ["", "Quick", "other", "custom "] {
        let config = TaskTypeConfig::get_config(name);
        let quick = TaskTypeConfig::get_config("quick");
        assert_eq!(format!("{:?}", config), format!("{:?}", quick));
    }
}
