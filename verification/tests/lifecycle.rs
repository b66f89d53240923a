use rusnel::{ClientError, ExitReason, LifecycleState, RusnelEvent, SessionOutcome};

fn stopped(reason: ExitReason) -> LifecycleState {
    LifecycleState::Stopped { reason }
}

#[test]
fn only_the_running_state_is_running() {
    assert!(LifecycleState::Running.is_running());
    assert!(!LifecycleState::Idle.is_running());
    assert!(!LifecycleState::Stopping.is_running());
    assert!(!stopped(ExitReason::Clean).is_running());
}

#[test]
fn states_compare_by_kind_and_reason() {
    let states = vec![
        LifecycleState::Idle,
        LifecycleState::Running,
        LifecycleState::Stopping,
        stopped(ExitReason::Clean),
        stopped(ExitReason::UserStopped),
        stopped(ExitReason::Error("a".to_string())),
        stopped(ExitReason::Error("b".to_string())),
        stopped(ExitReason::Panic("a".to_string())),
        stopped(ExitReason::Panic("b".to_string())),
    ];
    for (i, left) in states.iter().enumerate() {
        for (j, right) in states.iter().enumerate() {
            assert_eq!(left == right, i == j);
        }
        assert_eq!(left.clone(), *left);
    }
}

#[test]
fn a_cloned_event_carries_the_same_states() {
    let event = RusnelEvent::StateChange {
        from: LifecycleState::Running,
        to: stopped(ExitReason::Panic("boom".to_string())),
    };
    match event.clone() {
        RusnelEvent::StateChange { from, to } => {
            assert_eq!(from, LifecycleState::Running);
            assert_eq!(to, stopped(ExitReason::Panic("boom".to_string())));
        }
        RusnelEvent::Exited { .. } => panic!("a change was cloned"),
    }
    match (RusnelEvent::Exited { reason: ExitReason::Clean }).clone() {
        RusnelEvent::Exited { reason } => assert_eq!(reason, ExitReason::Clean),
        RusnelEvent::StateChange { .. } => panic!("an exit was cloned"),
    }
}

#[test]
fn the_error_has_its_text() {
    assert_eq!(ClientError::AlreadyRunning.message(), "rusnel client already running");
}

#[test]
fn each_terminal_path_has_its_reason() {
    assert_eq!(SessionOutcome::Returned.exit_reason(), ExitReason::Clean);
    assert_eq!(
        SessionOutcome::Failed("no route".to_string()).exit_reason(),
        ExitReason::Error("no route".to_string())
    );
    assert_eq!(
        SessionOutcome::Panicked { slice: Some("a".to_string()), owned: Some("b".to_string()) }
            .exit_reason(),
        ExitReason::Panic("a".to_string())
    );
    assert_eq!(
        SessionOutcome::Panicked { slice: None, owned: Some("b".to_string()) }.exit_reason(),
        ExitReason::Panic("b".to_string())
    );
    assert_eq!(
        SessionOutcome::Panicked { slice: None, owned: None }.exit_reason(),
        ExitReason::Panic("unknown panic".to_string())
    );
}

#[test]
fn a_buffered_event_fits_its_slot() {
    assert!(std::mem::size_of::<Option<RusnelEvent>>() <= 96);
}
