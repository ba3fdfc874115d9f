use task_core::{
    CancelTask, CancelTaskById, CreateTask, ErrorType, GetAllTasks, GetTask, GetTaskStatus,
    LaunchPlan, TaskFinished, TaskManagerActor, TaskStatus, TaskType, WorkerAction,
    WorkerMessage,
};

fn draw() -> u32 {
    0.25f32.to_bits()
}

/// Runs the plan of a new task to its end, with the timers firing at their
/// appointed times, and reports the final snapshot to the manager.
fn run_to_end(manager: &mut TaskManagerActor, launch: task_core::Launch) -> i64 {
    let mut worker = launch.worker;
    let created = worker.metadata.started_at;
    let finished_at = match launch.plan {
        LaunchPlan::Fail { failure } => {
            let now = created + 1;
            assert!(matches!(
                worker.handle_at(WorkerMessage::Error(failure), now),
                WorkerAction::Retire
            ));
            now
        }
        LaunchPlan::Start { start, probe_after_ms } => {
            let (work_ms, completion, timeout_ms) =
                match worker.handle_at(WorkerMessage::Start(start), created) {
                    WorkerAction::ArmTimers { work_ms, completion, timeout_ms } => {
                        (work_ms, completion, timeout_ms)
                    }
                    other => panic!("unexpected action {:?}", other),
                };
            assert_eq!(probe_after_ms, timeout_ms + 500);
            if work_ms < timeout_ms {
                let now = created + work_ms as i64;
                worker.handle_at(WorkerMessage::Complete(completion), now);
                worker.handle_at(
                    WorkerMessage::Timeout(task_core::TimeoutTask),
                    created + timeout_ms as i64,
                );
                now
            } else {
                let now = created + timeout_ms as i64;
                worker.handle_at(WorkerMessage::Timeout(task_core::TimeoutTask), now);
                worker.handle_at(WorkerMessage::Complete(completion), created + work_ms as i64);
                now
            }
        }
    };
    manager.task_finished(TaskFinished {
        id: launch.id,
        metadata: worker.get_status(GetTaskStatus),
    });
    finished_at
}

#[test]
fn scenario_quick_task_completes() {
    let mut manager = TaskManagerActor::new();
    let launch = manager.create_task_at(
        1,
        100_000,
        CreateTask {
            name: "T1".to_string(),
            message: "m".to_string(),
            task_type: TaskType::Quick { timeout_ms: None },
        },
        draw(),
    );

    let all = manager.get_all_tasks(GetAllTasks);
    assert_eq!(all.len(), 1);
    assert_eq!(all[0].status, TaskStatus::InProgress);
    assert_eq!(all[0].timeout_ms, 2000);

    let finished_at = run_to_end(&mut manager, launch);
    assert!(finished_at <= 100_000 + 2_100);

    let task = manager.get_task(GetTask { id: 1 }).unwrap();
    assert_eq!(task.status, TaskStatus::Completed);
    assert_eq!(task.result, Some("Task completed successfully".to_string()));
    assert_eq!(task.error, None);
    assert_eq!(task.actual_duration_ms, Some(1_500));
    let duration = task.actual_duration_ms.unwrap();
    assert!(2_000 - 500 <= duration && duration <= 2_000 + 500);
    assert!(task.is_consistent());
}

#[test]
fn scenario_immediate_failure() {
    let mut manager = TaskManagerActor::new();
    let launch = manager.create_task_at(
        2,
        100_000,
        CreateTask {
            name: "E".to_string(),
            message: "m".to_string(),
            task_type: TaskType::Error { timeout_ms: None, error_type: ErrorType::Immediate },
        },
        draw(),
    );
    assert!(matches!(launch.plan, LaunchPlan::Fail { .. }));

    let finished_at = run_to_end(&mut manager, launch);
    assert!(finished_at - 100_000 < 200);

    let task = manager.get_task(GetTask { id: 2 }).unwrap();
    assert_eq!(task.status, TaskStatus::Error);
    assert_eq!(task.error, Some("Immediate failure simulation".to_string()));
    assert_eq!(task.result, None);
    assert_eq!(task.timeout_ms, 5000);
    assert!(task.is_consistent());
}

#[test]
fn scenario_cancel_of_an_unused_id() {
    let mut manager = TaskManagerActor::new();
    manager.create_task(
        CreateTask {
            name: "kept".to_string(),
            message: "m".to_string(),
            task_type: TaskType::Quick { timeout_ms: None },
        },
        draw(),
    );
    let before = manager.get_all_tasks(GetAllTasks).len();

    let unused = uuid::Uuid::new_v4().as_u128();
    assert!(!manager.cancel_task_by_id(CancelTaskById { id: unused }));

    assert_eq!(manager.get_all_tasks(GetAllTasks).len(), before);
    assert!(manager.get_task(GetTask { id: unused }).is_none());
}

#[test]
fn scenario_cancel_of_a_long_task() {
    let mut manager = TaskManagerActor::new();
    let launch = manager.create_task(
        CreateTask {
            name: "L".to_string(),
            message: "m".to_string(),
            task_type: TaskType::Long { timeout_ms: None },
        },
        draw(),
    );
    let mut worker = launch.worker;

    assert!(manager.cancel_task_by_id(CancelTaskById { id: launch.id }));

    let task = manager.get_task(GetTask { id: launch.id }).unwrap();
    assert_eq!(task.status, TaskStatus::Error);
    assert!(task.cancelled_at.is_some());
    assert!(task.was_cancelled());
    assert!(task.error.as_deref().unwrap().contains("cancelled"));
    assert_eq!(task.timeout_ms, 10000);

    // the worker follows, and its own snapshot becomes the row
    assert!(matches!(worker.handle(WorkerMessage::Cancel(CancelTask)), WorkerAction::Retire));
    manager.task_finished(TaskFinished {
        id: launch.id,
        metadata: worker.get_status(GetTaskStatus),
    });
    let task = manager.get_task(GetTask { id: launch.id }).unwrap();
    assert_eq!(format!("{:?}", task), format!("{:?}", worker.metadata));
    assert_eq!(task.status, TaskStatus::Error);
    assert!(task.was_cancelled());
}

#[test]
fn scenario_custom_task_that_always_fails() {
    // every draw of the unit interval lies below a failure rate of one
    let draws = [0.0f32, f32::MIN_POSITIVE, 0.25, 0.5, 0.999_999_9, 1.0 - f32::EPSILON / 2.0];
    for (i, d) in draws.iter().enumerate() {
        assert!(*d < 1.0);
        let mut manager = TaskManagerActor::new();
        let launch = manager.create_task_at(
            i as u128,
            100_000,
            CreateTask {
                name: "C".to_string(),
                message: "m".to_string(),
                task_type: TaskType::Custom {
                    name: "always fails".to_string(),
                    timeout_ms: 3_000,
                    failure_rate: Some(1.0f32.to_bits()),
                },
            },
            d.to_bits(),
        );
        let finished_at = run_to_end(&mut manager, launch);

        let task = manager.get_task(GetTask { id: i as u128 }).unwrap();
        assert_eq!(task.status, TaskStatus::Error);
        assert_eq!(task.error, Some("Random failure simulation".to_string()));
        assert_eq!(task.result, None);
        assert!(!task.was_timeout());
        assert!((finished_at - 100_000) < 3_000);
        assert!(task.actual_duration_ms.unwrap() < task.timeout_ms);
    }
}

#[test]
fn scenario_custom_task_that_never_fails() {
    for rate in [None, Some(0.0f32.to_bits())] {
        let mut manager = TaskManagerActor::new();
        let launch = manager.create_task_at(
            1,
            100_000,
            CreateTask {
                name: "C".to_string(),
                message: "m".to_string(),
                task_type: TaskType::Custom {
                    name: "never fails".to_string(),
                    timeout_ms: 3_000,
                    failure_rate: rate,
                },
            },
            0.0f32.to_bits(),
        );
        run_to_end(&mut manager, launch);
        let task = manager.get_task(GetTask { id: 1 }).unwrap();
        assert_eq!(task.status, TaskStatus::Completed);
        assert_eq!(task.actual_duration_ms, Some(2_250));
    }
}

#[test]
fn scenario_task_that_is_meant_to_time_out() {
    let mut manager = TaskManagerActor::new();
    let launch = manager.create_task_at(
        4,
        100_000,
        CreateTask {
            name: "slow".to_string(),
            message: "m".to_string(),
            task_type: TaskType::Error { timeout_ms: Some(800), error_type: ErrorType::Timeout },
        },
        draw(),
    );
    run_to_end(&mut manager, launch);
    let task = manager.get_task(GetTask { id: 4 }).unwrap();
    assert_eq!(task.status, TaskStatus::Error);
    assert_eq!(task.error, Some("Task timed out after 800ms".to_string()));
    assert_eq!(task.timeout_at, Some(100_800));
    assert_eq!(task.actual_duration_ms, Some(800));
    assert!(task.was_timeout());
}
