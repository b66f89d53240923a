//! The handle that starts and stops an embedded client.
use tokio::sync::{broadcast, watch};
use tokio::task::{AbortHandle, JoinHandle};
use vstd::prelude::*;

use crate::client::channel::{
    feed, listening, slots_for, subscription, valid_capacity, watched, EventBus, Feed, Line,
    ShutdownLine, StateCell, Subscription,
};
use crate::client::crypto::{provider_requested, request_provider};
use crate::client::error::ClientError;
use crate::client::lifecycle::{
    feed_after, transition, ExitReason, ExitReasonView, LifecycleState, LifecycleStateView,
    RusnelEvent, RusnelEventView,
};
use crate::client::session::SessionOutcome;
use crate::client::task::{ask, probed, record, RunningTask, Slot, TaskRecord, WaitOutcome};

verus! {

/// Event buffer capacity of a handle made without one.
pub const DEFAULT_EVENT_CAPACITY: usize = 256;

/// Seconds that a stopped client task is given to exit before it is aborted.
pub const STOP_TIMEOUT_SECS: u64 = 5;

/// What a handle holds.
pub struct HandleView {
    /// Latest lifecycle state.
    pub state: LifecycleStateView,
    /// What has gone through the event channel.
    pub feed: Feed,
    /// What is kept of the session that was started last.
    pub task: Slot,
    /// Number of the session that was started last, zero before the first.
    pub session: u64,
}

/// The number of the session that is started after that of number `session`.
pub open spec fn next_session(session: u64) -> u64 {
    if session == u64::MAX {
        0
    } else {
        (session + 1) as u64
    }
}

impl HandleView {
    /// After a transition to `to`.
    pub open spec fn moved(self, to: LifecycleStateView) -> HandleView {
        HandleView { state: to, feed: feed_after(self.state, to, self.feed), ..self }
    }

    /// After an accepted start, which put `task` in place.
    pub open spec fn started(self, task: RunningTask) -> HandleView {
        HandleView {
            task: Slot::Owned(task),
            session: task.session,
            ..self.moved(LifecycleStateView::Running)
        }
    }

    /// After a stop took the owned task, which `probe` asks, and before the wait for it ended. A
    /// session that has ended already keeps its reason.
    pub open spec fn stopping(self, probe: AbortHandle) -> HandleView {
        let signalled = if self.state is Stopped {
            self
        } else {
            self.moved(LifecycleStateView::Stopping)
        };
        HandleView {
            task: Slot::Awaited { session: self.task->Owned_0.session, probe },
            ..signalled
        }
    }

    /// After the wait of a stop of `session` ended. An exit counts as the user's stop unless a
    /// more specific reason was written before. A task that did not exit in time is remembered
    /// until it has. A later session that was started once the task had exited is left alone.
    pub open spec fn stop_finished(self, session: u64, wait: WaitOutcome) -> HandleView {
        if !self.task.awaits(session) {
            self
        } else {
            match wait {
                WaitOutcome::Exited => HandleView {
                    task: Slot::Empty,
                    ..if self.state is Stopped {
                        self
                    } else {
                        self.moved(
                            LifecycleStateView::Stopped { reason: ExitReasonView::UserStopped },
                        )
                    }
                },
                WaitOutcome::TimedOut => HandleView {
                    task: Slot::Left(self.task->probe),
                    ..self.moved(
                        LifecycleStateView::Stopped {
                            reason: ExitReasonView::Error("stop timeout, hard aborted"@),
                        },
                    )
                },
            }
        }
    }

    /// After a stop of `session` gave up its wait.
    pub open spec fn stop_abandoned(self, session: u64) -> HandleView {
        if !self.task.awaits(session) {
            self
        } else {
            HandleView { task: Slot::Left(self.task->probe), ..self }
        }
    }

    /// After a session ended for `reason`.
    pub open spec fn session_ended(self, reason: ExitReasonView) -> HandleView {
        let stopped = self.moved(LifecycleStateView::Stopped { reason });
        HandleView {
            feed: Feed {
                emitted: stopped.feed.emitted.push(RusnelEventView::Exited { reason }),
                ..stopped.feed
            },
            ..stopped
        }
    }

    /// After the task was let go.
    pub open spec fn detached(self) -> HandleView {
        HandleView { task: Slot::Empty, ..self }
    }
}

/// Whether `launch`, given the receiving end of the shutdown line of `task`, made the handle of
/// `task`, and the line has carried no signal yet.
pub open spec fn launched<F>(launch: F, task: RunningTask) -> bool where
    F: FnOnce(broadcast::Receiver<()>) -> JoinHandle<()>,
 {
    &&& task.line().signals == 0
    &&& exists|rx: broadcast::Receiver<()>| #[trigger]
        call_ensures(launch, (rx,), task.handle) && listening(rx) == (Subscription {
            origin: task.line().origin,
            from: 0,
        })
}

/// Programmatic lifecycle handle for an embedded Rusnel client.
pub struct RusnelHandle {
    state: StateCell,
    events: EventBus,
    task: Slot,
    session: u64,
}

impl View for RusnelHandle {
    type V = HandleView;

    open spec fn view(&self) -> HandleView {
        HandleView {
            state: watched(self.state_sender()),
            feed: feed(self.event_sender()),
            task: self.task(),
            session: self.session(),
        }
    }
}

impl Default for RusnelHandle {
    fn default() -> (handle: Self)
        ensures
            handle@.state is Idle,
            handle@.feed.capacity == DEFAULT_EVENT_CAPACITY,
            slots_for(handle@.feed.capacity, handle@.feed.slots),
            handle@.feed.emitted == Seq::<RusnelEventView>::empty(),
            handle@.task is Empty,
            handle@.session == 0,
    {
        RusnelHandle::new()
    }
}

impl RusnelHandle {
    /// The sending end of the watched state.
    pub closed spec fn state_sender(&self) -> watch::Sender<LifecycleState> {
        self.state.sender()
    }

    /// The sending end of the events.
    pub closed spec fn event_sender(&self) -> broadcast::Sender<RusnelEvent> {
        self.events.sender()
    }

    /// What is kept of the session that was started last.
    pub closed spec fn task(&self) -> Slot {
        self.task
    }

    /// Number of the session that was started last.
    pub closed spec fn session(&self) -> u64 {
        self.session
    }

    /// Creates a handle with the default event buffer capacity.
    #[must_use]
    pub fn new() -> (handle: Self)
        ensures
            handle@.state is Idle,
            handle@.feed.capacity == DEFAULT_EVENT_CAPACITY,
            slots_for(handle@.feed.capacity, handle@.feed.slots),
            handle@.feed.emitted == Seq::<RusnelEventView>::empty(),
            handle@.task is Empty,
            handle@.session == 0,
    {
        RusnelHandle::with_capacity(DEFAULT_EVENT_CAPACITY)
    }

    /// Creates a handle with a caller-selected event buffer capacity.
    #[must_use]
    pub fn with_capacity(event_capacity: usize) -> (handle: Self)
        requires
            valid_capacity(event_capacity as nat),
        ensures
            handle@.state is Idle,
            handle@.feed.capacity == event_capacity,
            slots_for(handle@.feed.capacity, handle@.feed.slots),
            handle@.feed.emitted == Seq::<RusnelEventView>::empty(),
            handle@.task is Empty,
            handle@.session == 0,
    {
        RusnelHandle {
            state: StateCell::new(LifecycleState::Idle),
            events: EventBus::new(event_capacity),
            task: Slot::Empty,
            session: 0,
        }
    }

    /// Subscribes to lifecycle events: the receiver gets those that are emitted from now on.
    #[must_use]
    pub fn subscribe(&self) -> (rx: broadcast::Receiver<RusnelEvent>)
        ensures
            subscription(rx) == (Subscription {
                origin: self@.feed.origin,
                from: self@.feed.emitted.len(),
            }),
    {
        self.events.subscribe()
    }

    /// Returns the latest lifecycle state snapshot.
    #[must_use]
    pub fn state(&self) -> (state: LifecycleState)
        ensures
            state@ == self@.state,
    {
        self.state.get()
    }

    /// Starts a client task: `launch` spawns it, given the receiver on which it is told to shut
    /// down.
    ///
    /// # Errors
    ///
    /// Returns [`ClientError::AlreadyRunning`] when the previous task has not exited yet, be it
    /// that it runs, that a stop waits for it, or that the wait of a stop ended before it exited;
    /// the handle then stays as it is and `launch` is not called. Whether a task has exited is
    /// asked of the task itself, so where there is one, both answers are possible:
    /// [`RusnelHandle::start_when`] says what follows from each.
    pub fn start<F>(&mut self, launch: F) -> (result: Result<(), ClientError>) where
        F: FnOnce(broadcast::Receiver<()>) -> JoinHandle<()>,

        requires
            match old(self)@.task {
                Slot::Empty => true,
                Slot::Owned(task) => call_ensures(
                    JoinHandle::<()>::is_finished,
                    (&task.handle,),
                    true,
                ),
                Slot::Awaited { session: _, probe } => call_ensures(
                    AbortHandle::is_finished,
                    (&probe,),
                    true,
                ),
                Slot::Left(probe) => call_ensures(AbortHandle::is_finished, (&probe,), true),
            } ==> forall|rx: broadcast::Receiver<()>| call_requires(launch, (rx,)),
        ensures
            match old(self)@.task {
                Slot::Empty => result is Ok,
                Slot::Owned(task) => exists|finished: bool| #[trigger]
                    call_ensures(JoinHandle::<()>::is_finished, (&task.handle,), finished) && (
                    result is Ok <==> finished),
                Slot::Awaited { session: _, probe } => exists|finished: bool| #[trigger]
                    call_ensures(AbortHandle::is_finished, (&probe,), finished) && (result is Ok
                        <==> finished),
                Slot::Left(probe) => exists|finished: bool| #[trigger]
                    call_ensures(AbortHandle::is_finished, (&probe,), finished) && (result is Ok
                        <==> finished),
            },
            match result {
                Ok(()) => {
                    &&& final(self)@.task is Owned
                    &&& final(self)@.session == next_session(old(self)@.session)
                    &&& final(self)@ == old(self)@.started(final(self)@.task->Owned_0)
                    &&& launched(launch, final(self)@.task->Owned_0)
                    &&& provider_requested()
                    &&& final(self)@.state is Running
                    &&& final(self)@.feed == if old(self)@.state is Running {
                        old(self)@.feed
                    } else {
                        Feed {
                            emitted: old(self)@.feed.emitted.push(
                                RusnelEventView::StateChange {
                                    from: old(self)@.state,
                                    to: LifecycleStateView::Running,
                                },
                            ),
                            ..old(self)@.feed
                        }
                    }
                    &&& final(self)@.session == if old(self)@.session == u64::MAX {
                        0
                    } else {
                        old(self)@.session + 1
                    }
                    &&& final(self)@.task->Owned_0.session == final(self)@.session
                },
                Err(error) => error is AlreadyRunning && *final(self) == *old(self),
            },
    {
        let finished = match &self.task {
            Slot::Empty => true,
            Slot::Owned(task) => {
                let finished: bool = ask(JoinHandle::<()>::is_finished, &task.handle);
                assert(call_ensures(JoinHandle::<()>::is_finished, (&task.handle,), finished));
                finished
            },
            Slot::Awaited { session: _, probe } => {
                let finished: bool = ask(AbortHandle::is_finished, probe);
                assert(call_ensures(AbortHandle::is_finished, (probe,), finished));
                finished
            },
            Slot::Left(probe) => {
                let finished: bool = ask(AbortHandle::is_finished, probe);
                assert(call_ensures(AbortHandle::is_finished, (probe,), finished));
                finished
            },
        };
        self.start_when(finished, launch)
    }

    /// Starts a client task as [`RusnelHandle::start`] does, where `finished` says whether the
    /// previous task, if there is one, has exited.
    ///
    /// # Errors
    ///
    /// Returns [`ClientError::AlreadyRunning`] exactly when there is a previous task that has not
    /// exited. `launch` is called exactly when the start is accepted.
    pub fn start_when<F>(&mut self, finished: bool, launch: F) -> (result: Result<
        (),
        ClientError,
    >) where F: FnOnce(broadcast::Receiver<()>) -> JoinHandle<()>,
        requires
            old(self)@.task.admits(finished) ==> forall|rx: broadcast::Receiver<()>|
                call_requires(launch, (rx,)),
        ensures
            result is Ok <==> old(self)@.task.admits(finished),
            result is Ok <==> old(self)@.task is Empty || finished,
            match result {
                Ok(()) => {
                    &&& final(self)@.task is Owned
                    &&& final(self)@.session == next_session(old(self)@.session)
                    &&& final(self)@ == old(self)@.started(final(self)@.task->Owned_0)
                    &&& launched(launch, final(self)@.task->Owned_0)
                    &&& provider_requested()
                    &&& final(self)@.state is Running
                    &&& final(self)@.feed == if old(self)@.state is Running {
                        old(self)@.feed
                    } else {
                        Feed {
                            emitted: old(self)@.feed.emitted.push(
                                RusnelEventView::StateChange {
                                    from: old(self)@.state,
                                    to: LifecycleStateView::Running,
                                },
                            ),
                            ..old(self)@.feed
                        }
                    }
                    &&& final(self)@.session == if old(self)@.session == u64::MAX {
                        0
                    } else {
                        old(self)@.session + 1
                    }
                    &&& final(self)@.task->Owned_0.session == final(self)@.session
                },
                Err(error) => error is AlreadyRunning && *final(self) == *old(self),
            },
    {
        if !matches!(self.task, Slot::Empty) && !finished {
            return Err(ClientError::AlreadyRunning);
        }
        request_provider();
        let (shutdown, rx) = ShutdownLine::open();
        transition(&mut self.state, &mut self.events, LifecycleState::Running);
        let handle = launch(rx);
        let session: u64 = if self.session == u64::MAX {
            0
        } else {
            self.session + 1
        };
        self.session = session;
        self.task = Slot::Owned(RunningTask { session, handle, shutdown });
        assert(call_ensures(launch, (rx,), self@.task->Owned_0.handle));
        Ok(())
    }

    /// Requests graceful shutdown of the task that the handle owns and hands the task over. The
    /// caller waits up to [`STOP_TIMEOUT_SECS`] for it to exit and then calls
    /// [`RusnelHandle::finish_stop`], or [`RusnelHandle::abandon_stop`] if it gives up the wait.
    /// A session that has ended already keeps its reason. Without an owned task there is nothing
    /// to wait for, and the handle stays as it is.
    ///
    /// # Errors
    ///
    /// This method is infallible; it returns `Result` so callers can use one uniform control
    /// path for start and stop.
    pub fn stop(&mut self) -> (result: Result<Option<RunningTask>, ClientError>)
        ensures
            match (old(self)@.task, result) {
                (Slot::Owned(before), Ok(Some(task))) => {
                    &&& final(self)@.task is Awaited
                    &&& final(self)@ == old(self)@.stopping(final(self)@.task->probe)
                    &&& probed(final(self)@.task->probe) == record(before.handle).origin
                    &&& final(self)@.task->session == before.session
                    &&& final(self)@.session == old(self)@.session
                    &&& if old(self)@.state is Stopped {
                        &&& final(self)@.state == old(self)@.state
                        &&& final(self)@.feed == old(self)@.feed
                    } else {
                        &&& final(self)@.state is Stopping
                        &&& final(self)@.feed == if old(self)@.state is Stopping {
                            old(self)@.feed
                        } else {
                            Feed {
                                emitted: old(self)@.feed.emitted.push(
                                    RusnelEventView::StateChange {
                                        from: old(self)@.state,
                                        to: LifecycleStateView::Stopping,
                                    },
                                ),
                                ..old(self)@.feed
                            }
                        }
                    }
                    &&& task.session == before.session
                    &&& task.handle == before.handle
                    &&& task.line() == (Line { signals: before.line().signals + 1, ..before.line() })
                },
                (Slot::Owned(_), _) => false,
                (_, Ok(None)) => *final(self) == *old(self),
                _ => false,
            },
    {
        if !matches!(self.task, Slot::Owned(_)) {
            return Ok(None);
        }
        let mut slot = Slot::Empty;
        std::mem::swap(&mut self.task, &mut slot);
        match slot {
            Slot::Owned(mut task) => {
                let current = self.state.get();
                if !matches!(current, LifecycleState::Stopped { .. }) {
                    transition(&mut self.state, &mut self.events, LifecycleState::Stopping);
                }
                task.signal_shutdown();
                self.task = Slot::Awaited { session: task.session, probe: task.probe() };
                Ok(Some(task))
            },
            _ => Ok(None),
        }
    }

    /// Completes a stop once the wait for `task` has ended: a task that did not exit in time is
    /// aborted.
    pub fn finish_stop(&mut self, task: &mut RunningTask, wait: WaitOutcome)
        ensures
            final(self)@ == old(self)@.stop_finished(old(task).session, wait),
            final(self)@.session == old(self)@.session,
            match old(self)@.task {
                Slot::Awaited { session, probe } if session == old(task).session => match wait {
                    WaitOutcome::Exited => {
                        &&& final(self)@.task is Empty
                        &&& old(self)@.state is Stopped ==> final(self)@.state
                            == old(self)@.state
                        &&& !(old(self)@.state is Stopped) ==> final(self)@.state == (
                        LifecycleStateView::Stopped { reason: ExitReasonView::UserStopped })
                    },
                    WaitOutcome::TimedOut => {
                        &&& final(self)@.task == Slot::Left(probe)
                        &&& final(self)@.state == (LifecycleStateView::Stopped {
                            reason: ExitReasonView::Error("stop timeout, hard aborted"@),
                        })
                    },
                },
                _ => *final(self) == *old(self),
            },
            final(self)@.feed == if final(self)@.state == old(self)@.state {
                old(self)@.feed
            } else {
                Feed {
                    emitted: old(self)@.feed.emitted.push(
                        RusnelEventView::StateChange {
                            from: old(self)@.state,
                            to: final(self)@.state,
                        },
                    ),
                    ..old(self)@.feed
                }
            },
            match wait {
                WaitOutcome::Exited => *final(task) == *old(task),
                WaitOutcome::TimedOut => {
                    &&& final(task).session == old(task).session
                    &&& final(task).shutdown == old(task).shutdown
                    &&& record(final(task).handle) == (TaskRecord {
                        aborts: record(old(task).handle).aborts + 1,
                        ..record(old(task).handle)
                    })
                },
            },
    {
        if matches!(wait, WaitOutcome::TimedOut) {
            task.abort();
        }
        let mut slot = Slot::Empty;
        std::mem::swap(&mut self.task, &mut slot);
        match slot {
            Slot::Awaited { session, probe } => {
                if session != task.session {
                    self.task = Slot::Awaited { session, probe };
                    return ;
                }
                match wait {
                    WaitOutcome::Exited => {
                        let current = self.state.get();
                        if !matches!(current, LifecycleState::Stopped { .. }) {
                            transition(
                                &mut self.state,
                                &mut self.events,
                                LifecycleState::Stopped { reason: ExitReason::UserStopped },
                            );
                        }
                    },
                    WaitOutcome::TimedOut => {
                        transition(
                            &mut self.state,
                            &mut self.events,
                            LifecycleState::Stopped {
                                reason: ExitReason::Error("stop timeout, hard aborted".to_owned()),
                            },
                        );
                        self.task = Slot::Left(probe);
                    },
                }
            },
            other => {
                self.task = other;
            },
        }
    }

    /// Gives up a stop before the wait for `task` has ended. The task goes on to shut down, and
    /// a start is refused until it has exited.
    pub fn abandon_stop(&mut self, task: RunningTask)
        ensures
            final(self)@ == old(self)@.stop_abandoned(task.session),
            final(self)@.state == old(self)@.state,
            final(self)@.feed == old(self)@.feed,
            final(self)@.session == old(self)@.session,
            match old(self)@.task {
                Slot::Awaited { session, probe } if session == task.session => final(self)@.task
                    == Slot::Left(probe),
                _ => *final(self) == *old(self),
            },
    {
        let mut slot = Slot::Empty;
        std::mem::swap(&mut self.task, &mut slot);
        match slot {
            Slot::Awaited { session, probe } => {
                self.task = if session == task.session {
                    Slot::Left(probe)
                } else {
                    Slot::Awaited { session, probe }
                };
            },
            other => {
                self.task = other;
            },
        }
    }

    /// Records how the client session ended that was started last: the stopped state, and the
    /// event that it exited. No earlier session is left to end, as a start is accepted only once
    /// the previous task has exited.
    pub fn end_session(&mut self, outcome: SessionOutcome)
        ensures
            final(self)@ == old(self)@.session_ended(outcome.reason()),
            final(self)@.task == old(self)@.task,
            final(self)@.session == old(self)@.session,
            final(self)@.state is Stopped,
            final(self)@.state->reason == match outcome {
                SessionOutcome::Returned => ExitReasonView::Clean,
                SessionOutcome::Failed(text) => ExitReasonView::Error(text@),
                SessionOutcome::Panicked { slice, owned } => ExitReasonView::Panic(
                    if slice is Some {
                        slice->0@
                    } else if owned is Some {
                        owned->0@
                    } else {
                        "unknown panic"@
                    },
                ),
            },
            final(self)@.feed == (Feed {
                emitted: (if final(self)@.state == old(self)@.state {
                    old(self)@.feed.emitted
                } else {
                    old(self)@.feed.emitted.push(
                        RusnelEventView::StateChange {
                            from: old(self)@.state,
                            to: final(self)@.state,
                        },
                    )
                }).push(RusnelEventView::Exited { reason: final(self)@.state->reason }),
                ..old(self)@.feed
            }),
    {
        let reason = outcome.exit_reason();
        transition(
            &mut self.state,
            &mut self.events,
            LifecycleState::Stopped { reason: reason.clone() },
        );
        self.events.emit(RusnelEvent::Exited { reason });
    }

    /// Lets go of the task that the handle holds, if any. The task runs on, and its shutdown line
    /// closes.
    pub fn detach(&mut self)
        ensures
            final(self)@ == old(self)@.detached(),
            final(self)@.state == old(self)@.state,
            final(self)@.feed == old(self)@.feed,
            final(self)@.task is Empty,
            final(self)@.session == old(self)@.session,
    {
        self.task = Slot::Empty;
    }
}

} // verus!
