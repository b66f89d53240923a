//! Lifecycle states, exit reasons and events of an embedded client.
use vstd::prelude::*;

use crate::client::channel::{feed, watched, EventBus, Feed, StateCell};

verus! {

/// Reason why an embedded client session reached a stopped state.
#[derive(Debug)]
pub enum ExitReason {
    /// The client returned successfully.
    Clean,
    /// `stop` completed before the client task wrote a more specific reason.
    UserStopped,
    /// The client returned an error, or had to be aborted.
    Error(String),
    /// The client task panicked and the handle isolated the panic.
    Panic(String),
}

/// What an [`ExitReason`] says, with its text as a sequence of characters.
pub enum ExitReasonView {
    Clean,
    UserStopped,
    Error(Seq<char>),
    Panic(Seq<char>),
}

impl View for ExitReason {
    type V = ExitReasonView;

    open spec fn view(&self) -> ExitReasonView {
        match self {
            ExitReason::Clean => ExitReasonView::Clean,
            ExitReason::UserStopped => ExitReasonView::UserStopped,
            ExitReason::Error(text) => ExitReasonView::Error(text@),
            ExitReason::Panic(text) => ExitReasonView::Panic(text@),
        }
    }
}

impl Clone for ExitReason {
    fn clone(&self) -> (copy: Self)
        ensures
            copy == *self,
    {
        match self {
            ExitReason::Clean => ExitReason::Clean,
            ExitReason::UserStopped => ExitReason::UserStopped,
            ExitReason::Error(text) => ExitReason::Error(text.clone()),
            ExitReason::Panic(text) => ExitReason::Panic(text.clone()),
        }
    }
}

impl PartialEq for ExitReason {
    fn eq(&self, other: &Self) -> (equal: bool) {
        match (self, other) {
            (ExitReason::Clean, ExitReason::Clean) => true,
            (ExitReason::UserStopped, ExitReason::UserStopped) => true,
            (ExitReason::Error(a), ExitReason::Error(b)) => *a == *b,
            (ExitReason::Panic(a), ExitReason::Panic(b)) => *a == *b,
            _ => false,
        }
    }
}

impl vstd::std_specs::cmp::PartialEqSpecImpl for ExitReason {
    open spec fn obeys_eq_spec() -> bool {
        true
    }

    /// Two reasons are equal when they are of one kind and carry the same text.
    open spec fn eq_spec(&self, other: &Self) -> bool {
        self@ == other@
    }
}

impl Eq for ExitReason {

}

/// Current lifecycle state of a [`crate::client::handle::RusnelHandle`].
#[derive(Debug)]
pub enum LifecycleState {
    /// The handle has not started a client task.
    Idle,
    /// A client task has been spawned and owns the Rusnel session.
    Running,
    /// `stop` has asked the client task to shut down and waits for it to exit.
    Stopping,
    /// The client task has exited or was aborted after a stop timeout.
    Stopped { reason: ExitReason },
}

/// What a [`LifecycleState`] says, with the exit reason as its view.
pub enum LifecycleStateView {
    Idle,
    Running,
    Stopping,
    Stopped { reason: ExitReasonView },
}

impl View for LifecycleState {
    type V = LifecycleStateView;

    open spec fn view(&self) -> LifecycleStateView {
        match self {
            LifecycleState::Idle => LifecycleStateView::Idle,
            LifecycleState::Running => LifecycleStateView::Running,
            LifecycleState::Stopping => LifecycleStateView::Stopping,
            LifecycleState::Stopped { reason } => LifecycleStateView::Stopped { reason: reason@ },
        }
    }
}

impl Clone for LifecycleState {
    fn clone(&self) -> (copy: Self)
        ensures
            copy == *self,
    {
        match self {
            LifecycleState::Idle => LifecycleState::Idle,
            LifecycleState::Running => LifecycleState::Running,
            LifecycleState::Stopping => LifecycleState::Stopping,
            LifecycleState::Stopped { reason } => LifecycleState::Stopped { reason: reason.clone() },
        }
    }
}

impl PartialEq for LifecycleState {
    fn eq(&self, other: &Self) -> (equal: bool) {
        match (self, other) {
            (LifecycleState::Idle, LifecycleState::Idle) => true,
            (LifecycleState::Running, LifecycleState::Running) => true,
            (LifecycleState::Stopping, LifecycleState::Stopping) => true,
            (LifecycleState::Stopped { reason: a }, LifecycleState::Stopped { reason: b }) => *a
                == *b,
            _ => false,
        }
    }
}

impl vstd::std_specs::cmp::PartialEqSpecImpl for LifecycleState {
    open spec fn obeys_eq_spec() -> bool {
        true
    }

    /// Two states are equal when they are of one kind and, once stopped, for equal reasons.
    open spec fn eq_spec(&self, other: &Self) -> bool {
        self@ == other@
    }
}

impl Eq for LifecycleState {

}

impl LifecycleState {
    /// Returns true while the handle owns a live client task, which is what the running state
    /// stands for.
    #[must_use]
    pub fn is_running(&self) -> (running: bool)
        ensures
            running == (self is Running),
            running == (self@ is Running),
    {
        matches!(self, LifecycleState::Running)
    }
}

/// Events emitted by an embedded client handle.
#[derive(Debug)]
pub enum RusnelEvent {
    /// The lifecycle state changed.
    StateChange {
        /// The state before the change.
        from: LifecycleState,
        /// The state after the change.
        to: LifecycleState,
    },
    /// The client task exited and will not emit more lifecycle transitions.
    Exited {
        /// Final exit reason.
        reason: ExitReason,
    },
}

/// What a [`RusnelEvent`] says, with states and reasons as their views.
pub enum RusnelEventView {
    StateChange { from: LifecycleStateView, to: LifecycleStateView },
    Exited { reason: ExitReasonView },
}

impl View for RusnelEvent {
    type V = RusnelEventView;

    open spec fn view(&self) -> RusnelEventView {
        match self {
            RusnelEvent::StateChange { from, to } => RusnelEventView::StateChange {
                from: from@,
                to: to@,
            },
            RusnelEvent::Exited { reason } => RusnelEventView::Exited { reason: reason@ },
        }
    }
}

impl Clone for RusnelEvent {
    fn clone(&self) -> (copy: Self)
        ensures
            copy == *self,
    {
        match self {
            RusnelEvent::StateChange { from, to } => RusnelEvent::StateChange {
                from: from.clone(),
                to: to.clone(),
            },
            RusnelEvent::Exited { reason } => RusnelEvent::Exited { reason: reason.clone() },
        }
    }
}

/// What a transition to `to` leaves of the events: one more, which tells of the change, unless
/// there is none.
pub open spec fn feed_after(from: LifecycleStateView, to: LifecycleStateView, before: Feed) -> Feed {
    if from == to {
        before
    } else {
        Feed { emitted: before.emitted.push(RusnelEventView::StateChange { from, to }), ..before }
    }
}

/// Writes the latest lifecycle state and broadcasts a matching event. A transition to the state
/// that holds already touches neither channel, so nobody who watches the state is woken.
pub(crate) fn transition(state: &mut StateCell, events: &mut EventBus, to: LifecycleState)
    ensures
        watched(final(state).sender()) == to@,
        watched(old(state).sender()) == to@ ==> *final(state) == *old(state) && *final(events)
            == *old(events),
        watched(old(state).sender()) != to@ ==> feed(final(events).sender()) == (Feed {
            emitted: feed(old(events).sender()).emitted.push(
                RusnelEventView::StateChange { from: watched(old(state).sender()), to: to@ },
            ),
            ..feed(old(events).sender())
        }),
        feed(final(events).sender()) == feed_after(
            watched(old(state).sender()),
            to@,
            feed(old(events).sender()),
        ),
{
    let from = state.get();
    if from == to {
        return ;
    }
    let _ = state.replace(to.clone());
    events.emit(RusnelEvent::StateChange { from, to });
}

} // verus!
