use task_core::kind::{ERROR_TIMEOUT_MS, LONG_TIMEOUT_MS, QUICK_TIMEOUT_MS};
use task_core::manager::plan_launch;
use task_core::{ErrorType, LaunchPlan, TaskType};

fn custom(timeout_ms: u64, rate: Option<f32>) -> TaskType {
    TaskType::Custom {
        name: "c".to_string(),
        timeout_ms,
        failure_rate: rate.map(|r| r.to_bits()),
    }
}

#[test]
fn default_timeouts_of_the_kinds() {
    assert_eq!(TaskType::Quick { timeout_ms: None }.get_timeout(), 2000);
    assert_eq!(TaskType::Long { timeout_ms: None }.get_timeout(), 10000);
    for error_type in [
        ErrorType::Immediate,
        ErrorType::Timeout,
        ErrorType::Random,
        ErrorType::NetworkError,
        ErrorType::ValidationError,
    ] {
        assert_eq!(TaskType::Error { timeout_ms: None, error_type }.get_timeout(), 5000);
    }
    assert_eq!((QUICK_TIMEOUT_MS, LONG_TIMEOUT_MS, ERROR_TIMEOUT_MS), (2000, 10000, 5000));
}

#[test]
fn requested_timeouts_are_raised_to_the_floor() {
    assert_eq!(TaskType::Quick { timeout_ms: Some(0) }.get_timeout(), 100);
    assert_eq!(TaskType::Quick { timeout_ms: Some(99) }.get_timeout(), 100);
    assert_eq!(TaskType::Quick { timeout_ms: Some(100) }.get_timeout(), 100);
    assert_eq!(TaskType::Long { timeout_ms: Some(101) }.get_timeout(), 101);
    assert_eq!(
        TaskType::Error { timeout_ms: Some(7), error_type: ErrorType::Random }.get_timeout(),
        100
    );
    assert_eq!(custom(1, None).get_timeout(), 100);
    assert_eq!(custom(300_000, None).get_timeout(), 300_000);
    assert_eq!(custom(u64::MAX, None).get_timeout(), u64::MAX);
}

#[test]
fn default_names_of_the_kinds() {
    assert_eq!(TaskType::Quick { timeout_ms: None }.get_name(), "Quick Task");
    assert_eq!(TaskType::Long { timeout_ms: Some(5) }.get_name(), "Long Task");
    let names = [
        (ErrorType::Immediate, "Error Task (Immediate)"),
        (ErrorType::Timeout, "Error Task (Timeout)"),
        (ErrorType::Random, "Error Task (Random)"),
        (ErrorType::NetworkError, "Error Task (NetworkError)"),
        (ErrorType::ValidationError, "Error Task (ValidationError)"),
    ];
    for (error_type, name) in names {
        assert_eq!(TaskType::Error { timeout_ms: None, error_type }.get_name(), name);
        assert_eq!(format!("Error Task ({:?})", error_type), name);
        assert_eq!(error_type.variant_name(), format!("{:?}", error_type));
    }
    assert_eq!(
        TaskType::Custom { name: "Mine".to_string(), timeout_ms: 1, failure_rate: None }
            .get_name(),
        "Mine"
    );
}

#[test]
fn work_durations_are_shares_of_the_timeout() {
    assert_eq!(TaskType::Quick { timeout_ms: None }.work_duration_ms(), 1_500);
    assert_eq!(TaskType::Long { timeout_ms: None }.work_duration_ms(), 8_000);
    assert_eq!(custom(1_000, None).work_duration_ms(), 750);
    let error = |error_type| TaskType::Error { timeout_ms: None, error_type };
    assert_eq!(error(ErrorType::Timeout).work_duration_ms(), 6_000);
    assert_eq!(error(ErrorType::Random).work_duration_ms(), 2_500);
    assert_eq!(error(ErrorType::Immediate).work_duration_ms(), 1_666);
    assert_eq!(error(ErrorType::NetworkError).work_duration_ms(), 1_666);
    assert_eq!(error(ErrorType::ValidationError).work_duration_ms(), 1_666);
}

#[test]
fn work_durations_round_down_and_never_overflow() {
    for t in [100u64, 101, 102, 103, 109, 1_001, 1_003, 299_999] {
        assert_eq!(TaskType::Quick { timeout_ms: Some(t) }.work_duration_ms(), t * 3 / 4);
        assert_eq!(TaskType::Long { timeout_ms: Some(t) }.work_duration_ms(), t * 8 / 10);
        assert_eq!(custom(t, None).work_duration_ms(), t * 3 / 4);
    }
    let max = u64::MAX;
    assert_eq!(
        TaskType::Quick { timeout_ms: Some(max) }.work_duration_ms() as u128,
        max as u128 * 3 / 4
    );
    assert_eq!(
        TaskType::Long { timeout_ms: Some(max) }.work_duration_ms() as u128,
        max as u128 * 8 / 10
    );
    assert_eq!(custom(max - 1, None).work_duration_ms() as u128, (max as u128 - 1) * 3 / 4);
    let slow = |t| TaskType::Error { timeout_ms: Some(t), error_type: ErrorType::Timeout };
    assert_eq!(slow(max).work_duration_ms(), max);
    assert_eq!(slow(max - 999).work_duration_ms(), max);
    assert_eq!(slow(max - 1_000).work_duration_ms(), max);
    assert_eq!(slow(max - 1_001).work_duration_ms(), max - 1);
    assert_eq!(slow(5).work_duration_ms(), 1_100);
}

#[test]
fn work_ends_before_the_timeout_unless_meant_to_time_out() {
    for t in [0u64, 100, 101, 2_000, 300_000, u64::MAX] {
        let kinds = [
            TaskType::Quick { timeout_ms: Some(t) },
            TaskType::Long { timeout_ms: Some(t) },
            TaskType::Error { timeout_ms: Some(t), error_type: ErrorType::Immediate },
            TaskType::Error { timeout_ms: Some(t), error_type: ErrorType::Random },
            TaskType::Error { timeout_ms: Some(t), error_type: ErrorType::NetworkError },
            custom(t, Some(0.5)),
        ];
        for kind in kinds {
            assert!(kind.work_duration_ms() < kind.get_timeout(), "{:?}", kind);
        }
        let slow = TaskType::Error { timeout_ms: Some(t), error_type: ErrorType::Timeout };
        assert!(slow.work_duration_ms() >= slow.get_timeout());
    }
}

#[test]
fn should_fail_reports_the_mode_of_an_error_task() {
    for error_type in [
        ErrorType::Immediate,
        ErrorType::Timeout,
        ErrorType::Random,
        ErrorType::NetworkError,
        ErrorType::ValidationError,
    ] {
        let kind = TaskType::Error { timeout_ms: None, error_type };
        assert_eq!(kind.should_fail(0), Some(error_type));
        assert_eq!(kind.should_fail(0.99f32.to_bits()), Some(error_type));
    }
    assert_eq!(TaskType::Quick { timeout_ms: None }.should_fail(0), None);
    assert_eq!(TaskType::Long { timeout_ms: None }.should_fail(0), None);
}

#[test]
fn should_fail_compares_the_draw_with_the_rate() {
    let draws = [0.0f32, -0.0, 0.1, 0.3, 0.5, 0.7, 0.9, 0.999];
    let rates = [0.0f32, 0.1, 0.3, 0.5, 0.7, 0.9, 1.0, -0.0, -0.5, 2.0, f32::INFINITY, f32::NAN];
    for draw in draws {
        for rate in rates {
            let expected = if draw < rate { Some(ErrorType::Random) } else { None };
            assert_eq!(
                custom(1_000, Some(rate)).should_fail(draw.to_bits()),
                expected,
                "draw {} rate {}",
                draw,
                rate
            );
        }
        assert_eq!(custom(1_000, None).should_fail(draw.to_bits()), None);
    }
}

#[test]
fn launch_plans() {
    let draw = 0.5f32.to_bits();
    let error = |error_type| TaskType::Error { timeout_ms: None, error_type };

    match plan_launch(&error(ErrorType::Immediate), draw) {
        LaunchPlan::Fail { failure } => assert_eq!(failure.error, "Immediate failure simulation"),
        other => panic!("unexpected plan {:?}", other),
    }
    match plan_launch(&custom(1_000, Some(0.75)), draw) {
        LaunchPlan::Fail { failure } => assert_eq!(failure.error, "Random failure simulation"),
        other => panic!("unexpected plan {:?}", other),
    }
    let started = [
        (TaskType::Quick { timeout_ms: None }, 1_500, 2_500),
        (TaskType::Long { timeout_ms: None }, 8_000, 10_500),
        (error(ErrorType::Timeout), 6_000, 5_500),
        (error(ErrorType::Random), 2_500, 5_500),
        (error(ErrorType::NetworkError), 1_666, 5_500),
        (error(ErrorType::ValidationError), 1_666, 5_500),
        (custom(1_000, Some(0.25)), 750, 1_500),
        (custom(1_000, None), 750, 1_500),
        (custom(10, None), 75, 600),
        (custom(u64::MAX, None), (u64::MAX as u128 * 3 / 4) as u64, u64::MAX),
    ];
    for (kind, work_ms, probe_ms) in started {
        match plan_launch(&kind, draw) {
            LaunchPlan::Start { start, probe_after_ms } => {
                assert_eq!(start.duration_ms, work_ms, "{:?}", kind);
                assert_eq!(probe_after_ms, probe_ms, "{:?}", kind);
            }
            other => panic!("unexpected plan {:?}", other),
        }
    }
}

#[test]
fn clone_of_a_kind_keeps_it() {
    let kinds = [
        TaskType::Quick { timeout_ms: Some(1) },
        TaskType::Long { timeout_ms: None },
        TaskType::Error { timeout_ms: Some(3), error_type: ErrorType::ValidationError },
        custom(9, Some(0.5)),
    ];
    for kind in kinds {
        assert_eq!(format!("{:?}", kind.clone()), format!("{:?}", kind));
    }
}
