use std::sync::atomic::{AtomicBool, Ordering};
use std::sync::{Arc, Mutex};
use std::time::Duration;

use rusnel::{
    ClientError, ExitReason, LifecycleState, RusnelEvent, RusnelHandle, SessionOutcome,
    WaitOutcome, STOP_TIMEOUT_SECS,
};
use tokio::runtime::{Builder, Runtime};
use tokio::sync::broadcast;
use tokio::sync::broadcast::error::{RecvError, TryRecvError};

fn runtime() -> Runtime {
    Builder::new_multi_thread().worker_threads(2).enable_time().build().expect("runtime")
}

fn stopped(reason: ExitReason) -> LifecycleState {
    LifecycleState::Stopped { reason }
}

/// The events that a receiver has to read, oldest first, as text.
fn drain(events: &mut broadcast::Receiver<RusnelEvent>) -> Vec<String> {
    let mut seen = Vec::new();
    while let Ok(event) = events.try_recv() {
        seen.push(format!("{:?}", event));
    }
    seen
}

fn change(from: LifecycleState, to: LifecycleState) -> String {
    format!("{:?}", RusnelEvent::StateChange { from, to })
}

fn exited(reason: ExitReason) -> String {
    format!("{:?}", RusnelEvent::Exited { reason })
}

/// Starts a session that waits for its shutdown signal and does no more.
fn start_waiting(handle: &mut RusnelHandle, rt: &Runtime) -> Result<(), ClientError> {
    handle.start(|mut rx| {
        rt.spawn(async move {
            let _ = rx.recv().await;
        })
    })
}

#[test]
fn stop_is_ok_when_idle() {
    let mut handle = RusnelHandle::new();

    let task = handle.stop().expect("idle stop should succeed");

    assert!(task.is_none());
    assert_eq!(handle.state(), LifecycleState::Idle);
}

#[test]
fn a_new_handle_is_idle_and_silent() {
    for handle in vec![RusnelHandle::new(), RusnelHandle::default(), RusnelHandle::with_capacity(1)] {
        let mut events = handle.subscribe();
        assert_eq!(handle.state(), LifecycleState::Idle);
        assert!(!handle.state().is_running());
        assert_eq!(events.try_recv().err(), Some(TryRecvError::Empty));
    }
}

#[test]
fn start_runs_and_tells() {
    let rt = runtime();
    let mut handle = RusnelHandle::new();
    let mut events = handle.subscribe();

    assert!(start_waiting(&mut handle, &rt).is_ok());

    assert!(handle.state().is_running());
    assert_eq!(drain(&mut events), vec![change(LifecycleState::Idle, LifecycleState::Running)]);
    assert!(rustls::crypto::CryptoProvider::get_default().is_some());
}

#[test]
fn a_second_start_is_refused_and_changes_nothing() {
    let rt = runtime();
    let mut handle = RusnelHandle::new();
    assert!(start_waiting(&mut handle, &rt).is_ok());
    let mut events = handle.subscribe();

    let mut launched = false;
    let result = handle.start(|_rx| {
        launched = true;
        rt.spawn(async {})
    });

    assert!(matches!(result, Err(ClientError::AlreadyRunning)));
    assert!(!launched);
    assert!(handle.state().is_running());
    assert!(drain(&mut events).is_empty());
    assert!(handle.stop().expect("stop").is_some());
}

#[test]
fn whether_a_start_is_accepted_depends_on_the_exit_of_the_owned_task() {
    let rt = runtime();
    let mut handle = RusnelHandle::new();

    // Without a task the answer is of no account.
    assert!(handle.start_when(false, |_rx| rt.spawn(async {})).is_ok());
    assert!(handle.start_when(false, |_rx| rt.spawn(async {})).is_err());
    assert!(handle.start_when(true, |_rx| rt.spawn(async {})).is_ok());
    let mut task = handle.stop().expect("stop").expect("a task was running");
    assert!(handle.start_when(false, |_rx| rt.spawn(async {})).is_err());
    handle.finish_stop(&mut task, WaitOutcome::TimedOut);
    assert!(handle.start_when(false, |_rx| rt.spawn(async {})).is_err());
    assert!(handle.start_when(true, |_rx| rt.spawn(async {})).is_ok());
    let mut task = handle.stop().expect("stop").expect("a task was running");
    handle.finish_stop(&mut task, WaitOutcome::Exited);
    assert!(handle.start_when(false, |_rx| rt.spawn(async {})).is_ok());
    assert!(handle.state().is_running());
}

#[test]
fn a_start_after_the_session_exited_is_accepted() {
    let rt = runtime();
    let mut handle = RusnelHandle::new();
    assert!(handle.start(|_rx| rt.spawn(async {})).is_ok());
    handle.end_session(SessionOutcome::Returned);

    assert!(start_in_time(&mut handle, &rt));
    assert!(handle.state().is_running());
}

#[test]
fn stop_signals_the_session_and_waits() {
    let rt = runtime();
    let mut handle = RusnelHandle::new();
    let told = Arc::new(AtomicBool::new(false));
    let flag = told.clone();
    assert!(handle
        .start(|mut rx| {
            rt.spawn(async move {
                if rx.recv().await.is_ok() {
                    flag.store(true, Ordering::SeqCst);
                }
            })
        })
        .is_ok());
    let mut events = handle.subscribe();

    let mut task = handle.stop().expect("stop").expect("a task was running");
    assert_eq!(handle.state(), LifecycleState::Stopping);
    assert!(rt.block_on(&mut task.handle).is_ok());
    assert!(told.load(Ordering::SeqCst));

    handle.finish_stop(&mut task, WaitOutcome::Exited);
    assert_eq!(handle.state(), stopped(ExitReason::UserStopped));
    assert_eq!(
        drain(&mut events),
        vec![
            change(LifecycleState::Running, LifecycleState::Stopping),
            change(LifecycleState::Stopping, stopped(ExitReason::UserStopped)),
        ]
    );
    assert!(handle.stop().expect("second stop").is_none());
    assert_eq!(handle.state(), stopped(ExitReason::UserStopped));
}

#[test]
fn a_reason_written_while_stop_waits_stays() {
    let rt = runtime();
    let mut handle = RusnelHandle::new();
    assert!(start_waiting(&mut handle, &rt).is_ok());
    let mut events = handle.subscribe();

    let mut task = handle.stop().expect("stop").expect("a task was running");
    handle.end_session(SessionOutcome::Failed("link lost".to_string()));
    handle.finish_stop(&mut task, WaitOutcome::Exited);

    let reason = ExitReason::Error("link lost".to_string());
    assert_eq!(handle.state(), stopped(reason.clone()));
    assert_eq!(
        drain(&mut events),
        vec![
            change(LifecycleState::Running, LifecycleState::Stopping),
            change(LifecycleState::Stopping, stopped(reason.clone())),
            exited(reason),
        ]
    );
}

#[test]
fn a_task_that_does_not_exit_in_time_is_aborted() {
    assert_eq!(STOP_TIMEOUT_SECS, 5);
    let rt = runtime();
    let mut handle = RusnelHandle::new();
    assert!(handle
        .start(|rx| {
            rt.spawn(async move {
                let _deaf = rx;
                tokio::time::sleep(Duration::from_secs(3600)).await;
            })
        })
        .is_ok());

    let mut task = handle.stop().expect("stop").expect("a task was running");
    let waited = rt.block_on(async {
        tokio::time::timeout(Duration::from_millis(50), &mut task.handle).await
    });
    assert!(waited.is_err());
    handle.finish_stop(&mut task, WaitOutcome::TimedOut);

    let joined = rt.block_on(&mut task.handle);
    assert!(joined.expect_err("the task was aborted").is_cancelled());
    assert_eq!(
        handle.state(),
        stopped(ExitReason::Error("stop timeout, hard aborted".to_string()))
    );
}

#[test]
fn stopping_an_ended_session_keeps_its_reason() {
    let rt = runtime();
    let mut handle = RusnelHandle::new();
    assert!(handle.start(|_rx| rt.spawn(async {})).is_ok());
    handle.end_session(SessionOutcome::Failed("x".to_string()));
    let mut events = handle.subscribe();

    let mut task = handle.stop().expect("stop").expect("the task was not taken yet");
    let reason = ExitReason::Error("x".to_string());
    assert_eq!(handle.state(), stopped(reason.clone()));
    assert!(rt.block_on(&mut task.handle).is_ok());
    handle.finish_stop(&mut task, WaitOutcome::Exited);

    assert_eq!(handle.state(), stopped(reason));
    assert!(drain(&mut events).is_empty());
    assert!(start_waiting(&mut handle, &rt).is_ok());
}

/// Tries to start a session until the previous task has exited.
fn start_in_time(handle: &mut RusnelHandle, rt: &Runtime) -> bool {
    for _ in 0..500 {
        if start_waiting(handle, rt).is_ok() {
            return true;
        }
        rt.block_on(async { tokio::time::sleep(Duration::from_millis(10)).await });
    }
    false
}

#[test]
fn a_start_while_a_stop_waits_is_refused() {
    let rt = runtime();
    let mut handle = RusnelHandle::new();
    let (release, mut released) = broadcast::channel::<()>(1);
    assert!(handle
        .start(|_rx| {
            rt.spawn(async move {
                let _ = released.recv().await;
            })
        })
        .is_ok());
    let mut task = handle.stop().expect("stop").expect("a task was running");
    let mut events = handle.subscribe();

    let mut launched = false;
    let result = handle.start(|_rx| {
        launched = true;
        rt.spawn(async {})
    });
    assert!(matches!(result, Err(ClientError::AlreadyRunning)));
    assert!(!launched);
    assert_eq!(handle.state(), LifecycleState::Stopping);
    assert!(drain(&mut events).is_empty());

    // A second stop finds no task to wait for.
    assert!(handle.stop().expect("second stop").is_none());
    assert_eq!(handle.state(), LifecycleState::Stopping);

    assert!(release.send(()).is_ok());
    assert!(rt.block_on(&mut task.handle).is_ok());
    handle.finish_stop(&mut task, WaitOutcome::Exited);
    assert_eq!(handle.state(), stopped(ExitReason::UserStopped));
    assert!(start_waiting(&mut handle, &rt).is_ok());
    assert!(handle.state().is_running());
}

#[test]
fn a_start_once_the_awaited_task_has_exited_is_accepted() {
    let rt = runtime();
    let mut handle = RusnelHandle::new();
    assert!(start_waiting(&mut handle, &rt).is_ok());
    let mut first = handle.stop().expect("stop").expect("a task was running");
    assert!(rt.block_on(&mut first.handle).is_ok());
    handle.end_session(SessionOutcome::Returned);

    // The stop has not seen the exit yet.
    assert!(start_waiting(&mut handle, &rt).is_ok());
    assert!(handle.state().is_running());

    // When it does, it leaves the later session alone, running or stopping.
    handle.finish_stop(&mut first, WaitOutcome::Exited);
    assert!(handle.state().is_running());
    let mut second = handle.stop().expect("stop").expect("the later task was kept");
    handle.finish_stop(&mut first, WaitOutcome::Exited);
    assert_eq!(handle.state(), LifecycleState::Stopping);
    handle.finish_stop(&mut second, WaitOutcome::Exited);
    assert_eq!(handle.state(), stopped(ExitReason::UserStopped));
}

#[test]
fn a_start_after_a_timed_out_stop_waits_for_the_exit() {
    let rt = runtime();
    let mut handle = RusnelHandle::new();
    let (release, released) = std::sync::mpsc::channel::<()>();
    let (blocked, blocking) = std::sync::mpsc::channel::<()>();
    assert!(handle
        .start(|_rx| {
            rt.spawn(async move {
                let _ = blocked.send(());
                let _ = released.recv();
            })
        })
        .is_ok());
    assert!(blocking.recv().is_ok());
    let mut task = handle.stop().expect("stop").expect("a task was running");
    handle.finish_stop(&mut task, WaitOutcome::TimedOut);
    let timeout = stopped(ExitReason::Error("stop timeout, hard aborted".to_string()));
    assert_eq!(handle.state(), timeout);

    // The task was aborted but is yet to exit.
    assert!(start_waiting(&mut handle, &rt).is_err());
    assert_eq!(handle.state(), timeout);
    assert!(handle.stop().expect("second stop").is_none());

    assert!(release.send(()).is_ok());
    assert!(start_in_time(&mut handle, &rt));
    assert!(handle.state().is_running());
}

#[test]
fn a_start_after_an_abandoned_stop_waits_for_the_exit() {
    let rt = runtime();
    let mut handle = RusnelHandle::new();
    let (release, mut released) = broadcast::channel::<()>(1);
    assert!(handle
        .start(|_rx| {
            rt.spawn(async move {
                let _ = released.recv().await;
            })
        })
        .is_ok());
    let task = handle.stop().expect("stop").expect("a task was running");
    handle.abandon_stop(task);

    assert!(start_waiting(&mut handle, &rt).is_err());
    assert!(handle.start_when(false, |_rx| rt.spawn(async {})).is_err());
    assert_eq!(handle.state(), LifecycleState::Stopping);
    assert!(handle.stop().expect("second stop").is_none());

    assert!(release.send(()).is_ok());
    assert!(start_in_time(&mut handle, &rt));
    assert!(handle.state().is_running());
}

#[test]
fn of_many_starts_one_is_accepted() {
    let rt = runtime();
    let mut handle = RusnelHandle::new();
    let mut events = handle.subscribe();
    let mut sessions = 0;
    let mut accepted = 0;
    for _ in 0..5 {
        let result = handle.start(|mut rx| {
            sessions += 1;
            rt.spawn(async move {
                let _ = rx.recv().await;
            })
        });
        if result.is_ok() {
            accepted += 1;
        }
    }
    assert_eq!(accepted, 1);
    assert_eq!(sessions, 1);
    assert_eq!(drain(&mut events), vec![change(LifecycleState::Idle, LifecycleState::Running)]);
}

#[test]
fn completed_calls_that_end_with_a_stop_leave_idle_or_stopped() {
    let rt = runtime();
    let mut handle = RusnelHandle::new();
    assert!(handle.stop().expect("stop").is_none());
    assert_eq!(handle.state(), LifecycleState::Idle);
    for _ in 0..2 {
        assert!(start_waiting(&mut handle, &rt).is_ok());
        let mut task = handle.stop().expect("stop").expect("a task was running");
        assert!(rt.block_on(&mut task.handle).is_ok());
        handle.finish_stop(&mut task, WaitOutcome::Exited);
        assert!(matches!(handle.state(), LifecycleState::Stopped { .. }));
    }
    assert!(handle.stop().expect("stop").is_none());
    assert!(matches!(handle.state(), LifecycleState::Stopped { .. }));
}

#[test]
fn the_end_of_a_session_is_told_last() {
    let mut handle = RusnelHandle::new();
    let mut events = handle.subscribe();

    handle.end_session(SessionOutcome::Panicked { slice: Some("boom".to_string()), owned: None });

    let reason = ExitReason::Panic("boom".to_string());
    assert_eq!(handle.state(), stopped(reason.clone()));
    assert_eq!(
        drain(&mut events),
        vec![change(LifecycleState::Idle, stopped(reason.clone())), exited(reason)]
    );
}

#[test]
fn a_change_to_the_same_state_is_told_once() {
    let mut handle = RusnelHandle::new();
    let mut events = handle.subscribe();

    handle.end_session(SessionOutcome::Returned);
    handle.end_session(SessionOutcome::Returned);

    assert_eq!(
        drain(&mut events),
        vec![
            change(LifecycleState::Idle, stopped(ExitReason::Clean)),
            exited(ExitReason::Clean),
            exited(ExitReason::Clean),
        ]
    );
}

#[test]
fn a_subscriber_gets_later_events_only() {
    let mut handle = RusnelHandle::new();
    handle.end_session(SessionOutcome::Returned);
    let mut events = handle.subscribe();
    handle.end_session(SessionOutcome::Failed("late".to_string()));

    let reason = ExitReason::Error("late".to_string());
    assert_eq!(
        drain(&mut events),
        vec![change(stopped(ExitReason::Clean), stopped(reason.clone())), exited(reason)]
    );
}

#[test]
fn the_event_buffer_has_the_capacity_asked_for() {
    let mut handle = RusnelHandle::with_capacity(2);
    let mut events = handle.subscribe();

    handle.end_session(SessionOutcome::Returned);
    handle.end_session(SessionOutcome::Failed("more".to_string()));

    let reason = ExitReason::Error("more".to_string());
    assert_eq!(events.try_recv().err(), Some(TryRecvError::Lagged(2)));
    assert_eq!(
        drain(&mut events),
        vec![change(stopped(ExitReason::Clean), stopped(reason.clone())), exited(reason)]
    );

    // The buffer has a power of two of slots.
    let mut handle = RusnelHandle::with_capacity(3);
    let mut events = handle.subscribe();
    for _ in 0..4 {
        handle.end_session(SessionOutcome::Returned);
    }
    assert_eq!(events.try_recv().err(), Some(TryRecvError::Lagged(1)));
    assert_eq!(drain(&mut events).len(), 4);

    let mut roomy = RusnelHandle::new();
    let mut events = roomy.subscribe();
    for _ in 0..256 {
        roomy.end_session(SessionOutcome::Returned);
    }
    assert_eq!(events.try_recv().err(), Some(TryRecvError::Lagged(1)));
    assert_eq!(drain(&mut events).len(), 256);
}

#[test]
fn events_lead_to_the_state() {
    let rt = runtime();
    let mut handle = RusnelHandle::new();
    let mut events = handle.subscribe();
    assert!(start_waiting(&mut handle, &rt).is_ok());
    handle.end_session(SessionOutcome::Failed("x".to_string()));
    let mut task = handle.stop().expect("stop").expect("a task was running");
    handle.finish_stop(&mut task, WaitOutcome::TimedOut);
    assert!(start_in_time(&mut handle, &rt));
    let mut task = handle.stop().expect("stop").expect("a task was running");
    handle.end_session(SessionOutcome::Returned);
    handle.finish_stop(&mut task, WaitOutcome::Exited);

    let mut known = LifecycleState::Idle;
    while let Ok(event) = events.try_recv() {
        match event {
            RusnelEvent::StateChange { from, to } => {
                assert_eq!(from, known);
                assert_ne!(from, to);
                known = to;
            }
            RusnelEvent::Exited { reason } => assert_eq!(known, stopped(reason)),
        }
    }
    assert_eq!(known, handle.state());
}

#[test]
fn a_detached_task_runs_on_with_its_line_closed() {
    let rt = runtime();
    let mut handle = RusnelHandle::new();
    let closed = Arc::new(AtomicBool::new(false));
    let flag = closed.clone();
    assert!(handle
        .start(|mut rx| {
            rt.spawn(async move {
                let end = rx.recv().await;
                flag.store(end == Err(RecvError::Closed), Ordering::SeqCst);
            })
        })
        .is_ok());

    handle.detach();

    assert!(handle.state().is_running());
    assert!(handle.stop().expect("stop").is_none());
    for _ in 0..500 {
        if closed.load(Ordering::SeqCst) {
            break;
        }
        rt.block_on(async { tokio::time::sleep(Duration::from_millis(10)).await });
    }
    assert!(closed.load(Ordering::SeqCst));
}

#[test]
fn handle_runs_a_session_then_stops() {
    let rt = runtime();
    let handle = Arc::new(Mutex::new(RusnelHandle::new()));
    let mut events = handle.lock().unwrap().subscribe();
    assert_eq!(handle.lock().unwrap().state(), LifecycleState::Idle);

    let shared = handle.clone();
    let started = handle.lock().unwrap().start(|mut rx| {
        rt.spawn(async move {
            let _ = rx.recv().await;
            shared.lock().unwrap().end_session(SessionOutcome::Returned);
        })
    });
    assert!(started.is_ok());
    assert!(handle.lock().unwrap().state().is_running());

    let mut task = handle.lock().unwrap().stop().expect("stop").expect("a task was running");
    let wait = Duration::from_secs(STOP_TIMEOUT_SECS);
    let waited = rt.block_on(async { tokio::time::timeout(wait, &mut task.handle).await });
    assert!(waited.is_ok());
    handle.lock().unwrap().finish_stop(&mut task, WaitOutcome::Exited);

    assert!(matches!(
        handle.lock().unwrap().state(),
        LifecycleState::Stopped { reason: ExitReason::Clean | ExitReason::UserStopped }
    ));
    let mut saw_stopped = false;
    while let Ok(event) = events.try_recv() {
        if matches!(
            event,
            RusnelEvent::StateChange { to: LifecycleState::Stopped { .. }, .. }
        ) {
            saw_stopped = true;
        }
    }
    assert!(saw_stopped, "stop should publish a stopped state event");
}
