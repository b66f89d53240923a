//! What holds of a handle over whole runs of operations.
use tokio::sync::broadcast;
use tokio::task::{AbortHandle, JoinHandle};
use vstd::arithmetic::power2::is_pow2;
use vstd::prelude::*;
use vstd::std_specs::cmp::PartialEqSpec;

use crate::client::channel::{
    feed, line, listening, slots_for, valid_capacity, watched, Feed, Line, Subscription,
    MAX_EVENT_CAPACITY,
};
use crate::client::handle::{
    launched, next_session, HandleView, RusnelHandle, DEFAULT_EVENT_CAPACITY, STOP_TIMEOUT_SECS,
};
use crate::client::lifecycle::{
    feed_after, ExitReason, ExitReasonView, LifecycleState, LifecycleStateView, RusnelEvent,
    RusnelEventView,
};
use crate::client::session::SessionOutcome;
use crate::client::task::{RunningTask, Slot, WaitOutcome};

verus! {

/// One operation on a handle, as seen by what it does to it. A refused start does nothing.
pub enum Operation {
    /// An accepted start, which put `task` in place.
    Start { task: RunningTask },
    /// A stop, which asks the task through `probe`.
    Stop { probe: AbortHandle },
    /// The end of the wait of a stop of `session`.
    FinishStop { session: u64, wait: WaitOutcome },
    /// The end of a stop of `session` that gave up its wait.
    AbandonStop { session: u64 },
    /// The end of a session.
    EndSession { reason: ExitReasonView },
    /// The release of the task.
    Detach,
}

/// The handle after one operation.
pub open spec fn apply(v: HandleView, operation: Operation) -> HandleView {
    match operation {
        Operation::Start { task } => v.started(task),
        Operation::Stop { probe } => if v.task is Owned {
            v.stopping(probe)
        } else {
            v
        },
        Operation::FinishStop { session, wait } => v.stop_finished(session, wait),
        Operation::AbandonStop { session } => v.stop_abandoned(session),
        Operation::EndSession { reason } => v.session_ended(reason),
        Operation::Detach => v.detached(),
    }
}

/// The handle after a run of operations, first to last.
pub open spec fn run(v: HandleView, operations: Seq<Operation>) -> HandleView
    decreases operations.len(),
{
    if operations.len() == 0 {
        v
    } else {
        apply(run(v, operations.drop_last()), operations.last())
    }
}

/// The state that a listener knows who heard `events` from the start.
pub open spec fn told(events: Seq<RusnelEventView>) -> LifecycleStateView
    decreases events.len(),
{
    if events.len() == 0 {
        LifecycleStateView::Idle
    } else {
        match events.last() {
            RusnelEventView::StateChange { from: _, to } => to,
            RusnelEventView::Exited { reason: _ } => told(events.drop_last()),
        }
    }
}

/// Whether `event` fits a listener who knows `known`: a change leads from there to another
/// state, and an exit has the reason of the stopped state that it follows.
pub open spec fn fits(known: LifecycleStateView, event: RusnelEventView) -> bool {
    match event {
        RusnelEventView::StateChange { from, to } => from == known && from != to,
        RusnelEventView::Exited { reason } => known == (LifecycleStateView::Stopped { reason }),
    }
}

/// Whether each event fits those before it.
pub open spec fn chained(events: Seq<RusnelEventView>) -> bool {
    forall|i: int| 0 <= i < events.len() ==> fits(told(events.take(i)), #[trigger] events[i])
}

/// Whether some event from position `from` on tells of a stopped state.
pub open spec fn tells_stopped(events: Seq<RusnelEventView>, from: nat) -> bool {
    exists|i: int|
        from <= i < events.len() && (#[trigger] events[i] matches RusnelEventView::StateChange {
            from: _,
            to,
        } && to is Stopped)
}

/// How many of `events` tell of an exit.
pub open spec fn exits(events: Seq<RusnelEventView>) -> nat
    decreases events.len(),
{
    if events.len() == 0 {
        0
    } else {
        exits(events.drop_last()) + if events.last() is Exited {
            1nat
        } else {
            0nat
        }
    }
}

/// How many operations of a run are the end of a session.
pub open spec fn session_ends(operations: Seq<Operation>) -> nat
    decreases operations.len(),
{
    if operations.len() == 0 {
        0
    } else {
        session_ends(operations.drop_last()) + if operations.last() is EndSession {
            1nat
        } else {
            0nat
        }
    }
}

/// How many operations of a run change the state.
pub open spec fn state_changes(v: HandleView, operations: Seq<Operation>) -> nat
    decreases operations.len(),
{
    if operations.len() == 0 {
        0
    } else {
        state_changes(v, operations.drop_last()) + if run(v, operations).state != run(
            v,
            operations.drop_last(),
        ).state {
            1nat
        } else {
            0nat
        }
    }
}

/// Whether `event` tells of a step of a run: a change that one of its operations made.
pub open spec fn tells_a_step(
    v: HandleView,
    operations: Seq<Operation>,
    event: RusnelEventView,
) -> bool {
    event matches RusnelEventView::StateChange { from, to } ==> exists|k: int|
        0 <= k < operations.len() && from == (#[trigger] run(v, operations.take(k))).state && to
            == run(v, operations.take(k + 1)).state
}

/// One more event that fits keeps the chain.
proof fn lemma_chain_push(events: Seq<RusnelEventView>, event: RusnelEventView)
    requires
        chained(events),
        fits(told(events), event),
    ensures
        chained(events.push(event)),
        event matches RusnelEventView::StateChange { from: _, to } ==> told(events.push(event))
            == to,
        event is Exited ==> told(events.push(event)) == told(events),
{
    let longer = events.push(event);
    assert(longer.drop_last() =~= events);
    assert forall|i: int| 0 <= i < longer.len() implies fits(
        told(longer.take(i)),
        #[trigger] longer[i],
    ) by {
        if i < events.len() {
            assert(longer.take(i) =~= events.take(i));
            assert(fits(told(events.take(i)), events[i]));
        } else {
            assert(longer.take(i) =~= events);
        }
    }
}

/// A transition keeps the chain.
proof fn lemma_chain_moved(v: HandleView, to: LifecycleStateView)
    requires
        chained(v.feed.emitted),
        told(v.feed.emitted) == v.state,
    ensures
        chained(v.moved(to).feed.emitted),
        told(v.moved(to).feed.emitted) == to,
{
    if v.state != to {
        lemma_chain_push(v.feed.emitted, RusnelEventView::StateChange { from: v.state, to });
    }
}

/// The events of a handle tell its whole story: whatever was done to it since it was made, its
/// state is the one that its events lead to, each change starts where the one before it ended
/// and leads to another state, and each exit has the reason of the stopped state it follows.
pub proof fn law_events_tell_the_state(fresh: HandleView, operations: Seq<Operation>)
    requires
        fresh.state is Idle,
        fresh.feed.emitted == Seq::<RusnelEventView>::empty(),
    ensures
        chained(run(fresh, operations).feed.emitted),
        told(run(fresh, operations).feed.emitted) == run(fresh, operations).state,
    decreases operations.len(),
{
    if operations.len() > 0 {
        let rest = operations.drop_last();
        law_events_tell_the_state(fresh, rest);
        let v = run(fresh, rest);
        match operations.last() {
            Operation::Start { task: _ } => lemma_chain_moved(v, LifecycleStateView::Running),
            Operation::Stop { probe } => lemma_chain_moved(v, v.stopping(probe).state),
            Operation::FinishStop { session, wait } => lemma_chain_moved(
                v,
                v.stop_finished(session, wait).state,
            ),
            Operation::EndSession { reason } => {
                let stopped = v.moved(LifecycleStateView::Stopped { reason });
                lemma_chain_moved(v, LifecycleStateView::Stopped { reason });
                lemma_chain_push(stopped.feed.emitted, RusnelEventView::Exited { reason });
            },
            Operation::AbandonStop { session: _ } => {},
            Operation::Detach => {},
        }
    }
}

/// A view shows what the value holds: each variant as itself, with its text, states and reason.
pub proof fn law_views_show_the_value(reason: ExitReason, state: LifecycleState, event: RusnelEvent)
    ensures
        reason is Clean <==> reason@ is Clean,
        reason is UserStopped <==> reason@ is UserStopped,
        reason is Error <==> reason@ is Error,
        reason is Panic <==> reason@ is Panic,
        reason matches ExitReason::Error(text) ==> reason@ == ExitReasonView::Error(text@),
        reason matches ExitReason::Panic(text) ==> reason@ == ExitReasonView::Panic(text@),
        state is Idle <==> state@ is Idle,
        state is Running <==> state@ is Running,
        state is Stopping <==> state@ is Stopping,
        state is Stopped <==> state@ is Stopped,
        state matches LifecycleState::Stopped { reason: why } ==> state@->reason == why@,
        event is StateChange <==> event@ is StateChange,
        event is Exited <==> event@ is Exited,
        event matches RusnelEvent::StateChange { from, to } ==> event@->from == from@ && event@->to
            == to@,
        event matches RusnelEvent::Exited { reason: why } ==> event@->reason == why@,
{
}

/// Two reasons, or two states, are equal exactly when they are of one kind and what they carry is
/// equal, to the last character.
pub proof fn law_equality_is_exact(
    a: ExitReason,
    b: ExitReason,
    left: LifecycleState,
    right: LifecycleState,
)
    ensures
        ExitReason::obeys_eq_spec(),
        LifecycleState::obeys_eq_spec(),
        a.eq_spec(&b) <==> match (a, b) {
            (ExitReason::Clean, ExitReason::Clean) => true,
            (ExitReason::UserStopped, ExitReason::UserStopped) => true,
            (ExitReason::Error(x), ExitReason::Error(y)) => x@ == y@,
            (ExitReason::Panic(x), ExitReason::Panic(y)) => x@ == y@,
            _ => false,
        },
        left.eq_spec(&right) <==> match (left, right) {
            (LifecycleState::Idle, LifecycleState::Idle) => true,
            (LifecycleState::Running, LifecycleState::Running) => true,
            (LifecycleState::Stopping, LifecycleState::Stopping) => true,
            (
                LifecycleState::Stopped { reason: x },
                LifecycleState::Stopped { reason: y },
            ) => x.eq_spec(&y),
            _ => false,
        },
{
}

/// What is shown of a handle is what its channels hold and what it keeps of its session.
pub proof fn law_a_handle_shows_its_channels(handle: RusnelHandle)
    ensures
        handle@.state == watched(handle.state_sender()),
        handle@.feed == feed(handle.event_sender()),
        handle@.task == handle.task(),
        handle@.session == handle.session(),
{
}

/// What is shown of the shutdown line of a task is what has gone through its channel.
pub proof fn law_a_task_shows_its_line(task: RunningTask)
    ensures
        task.line() == line(task.shutdown.sender()),
{
}

/// A clean exit stands for success alone. An error is told by exactly the text of the error, and
/// a panic by exactly the text of its payload, whatever their length.
pub proof fn law_exit_reasons_tell_how_the_session_ended(outcome: SessionOutcome)
    ensures
        outcome.reason() is Clean <==> outcome is Returned,
        outcome.reason() is Error <==> outcome is Failed,
        outcome.reason() is Panic <==> outcome is Panicked,
        outcome matches SessionOutcome::Failed(text) ==> outcome.reason() == ExitReasonView::Error(
            text@,
        ),
        outcome matches SessionOutcome::Panicked { slice, owned } ==> {
            &&& slice is Some ==> outcome.reason() == ExitReasonView::Panic(slice->0@)
            &&& slice is None && owned is Some ==> outcome.reason() == ExitReasonView::Panic(
                owned->0@,
            )
            &&& slice is None && owned is None ==> outcome.reason() == ExitReasonView::Panic(
                "unknown panic"@,
            )
        },
{
}

/// Sessions that ended with different errors, or one with an error and one without, are told apart
/// by their reasons.
pub proof fn law_failures_are_told_apart(a: SessionOutcome, b: SessionOutcome)
    requires
        a.reason() == b.reason(),
    ensures
        a is Returned <==> b is Returned,
        a is Failed <==> b is Failed,
        a is Failed ==> a->Failed_0@ == b->Failed_0@,
{
}

/// A transition ends in the new state. Between different states it adds exactly one event to
/// those before, the change from the one to the other; otherwise it changes nothing. The task
/// and the channel stay.
pub proof fn law_transition_tells_exactly_the_change(v: HandleView, to: LifecycleStateView)
    ensures
        v.moved(to).state == to,
        v.moved(to).task == v.task,
        v.moved(to).session == v.session,
        v.moved(to).feed.origin == v.feed.origin,
        v.moved(to).feed.capacity == v.feed.capacity,
        v.moved(to).feed.slots == v.feed.slots,
        v.state == to ==> v.moved(to).feed.emitted == v.feed.emitted,
        v.state != to ==> v.moved(to).feed.emitted == v.feed.emitted.push(
            RusnelEventView::StateChange { from: v.state, to },
        ),
        feed_after(v.state, to, v.feed) == v.moved(to).feed,
{
}

/// An accepted start leaves the handle running, with the task in place. From another state it
/// adds exactly one event, the change to running.
pub proof fn law_start_tells_the_change_to_running(v: HandleView, task: RunningTask)
    ensures
        v.started(task).state is Running,
        v.started(task).task == Slot::Owned(task),
        v.started(task).session == task.session,
        v.started(task).feed == if v.state is Running {
            v.feed
        } else {
            Feed {
                emitted: v.feed.emitted.push(
                    RusnelEventView::StateChange {
                        from: v.state,
                        to: LifecycleStateView::Running,
                    },
                ),
                ..v.feed
            }
        },
{
}

/// While a stop waits for the task of a session that has not ended, the handle is stopping,
/// whatever the number of the session, and exactly one event told the change to that.
pub proof fn law_a_waiting_stop_shows_stopping(v: HandleView, probe: AbortHandle)
    requires
        v.task is Owned,
    ensures
        v.stopping(probe).task == (Slot::Awaited { session: v.task->Owned_0.session, probe }),
        v.stopping(probe).session == v.session,
        v.state is Stopped ==> v.stopping(probe).state == v.state && v.stopping(probe).feed
            == v.feed,
        !(v.state is Stopped) ==> v.stopping(probe).state is Stopping,
        !(v.state is Stopped) && !(v.state is Stopping) ==> v.stopping(probe).feed == (Feed {
            emitted: v.feed.emitted.push(
                RusnelEventView::StateChange { from: v.state, to: LifecycleStateView::Stopping },
            ),
            ..v.feed
        }),
        v.state is Stopping ==> v.stopping(probe).feed == v.feed,
{
}

/// The end of a wait records how it ended, whatever the number of the session: a timeout as the
/// error that it is, an exit as the reason written before or else as the user's stop. At most one
/// event tells of it, the change of state; a stop that does not wait any more changes nothing.
pub proof fn law_the_end_of_a_wait_is_recorded(v: HandleView, session: u64, wait: WaitOutcome)
    ensures
        ({
            let done = v.stop_finished(session, wait);
            &&& done.session == v.session
            &&& done.feed == if done.state == v.state {
                v.feed
            } else {
                Feed {
                    emitted: v.feed.emitted.push(
                        RusnelEventView::StateChange { from: v.state, to: done.state },
                    ),
                    ..v.feed
                }
            }
            &&& match v.task {
                Slot::Awaited { session: awaited, probe } if awaited == session => match wait {
                    WaitOutcome::TimedOut => {
                        &&& done.task == Slot::Left(probe)
                        &&& done.state == (LifecycleStateView::Stopped {
                            reason: ExitReasonView::Error("stop timeout, hard aborted"@),
                        })
                    },
                    WaitOutcome::Exited => {
                        &&& done.task is Empty
                        &&& v.state is Stopped ==> done.state == v.state
                        &&& !(v.state is Stopped) ==> done.state == (
                        LifecycleStateView::Stopped { reason: ExitReasonView::UserStopped })
                    },
                },
                _ => done == v,
            }
        }),
{
}

/// A stop that gives up tells nothing and changes no state: it leaves behind what its task can be
/// asked through.
pub proof fn law_an_abandoned_stop_leaves_its_task(v: HandleView, session: u64)
    ensures
        v.stop_abandoned(session).state == v.state,
        v.stop_abandoned(session).feed == v.feed,
        v.stop_abandoned(session).session == v.session,
        match v.task {
            Slot::Awaited { session: awaited, probe } if awaited == session => v.stop_abandoned(
                session,
            ).task == Slot::Left(probe),
            _ => v.stop_abandoned(session).task == v.task,
        },
{
}

/// The end of a session adds the change to the stopped state, unless that is the state already,
/// and then the exit, and nothing else. The task stays.
pub proof fn law_the_end_of_a_session_tells_change_and_exit(v: HandleView, reason: ExitReasonView)
    ensures
        ({
            let stopped = LifecycleStateView::Stopped { reason };
            let ended = v.session_ended(reason);
            &&& ended.state == stopped
            &&& ended.task == v.task
            &&& ended.session == v.session
            &&& ended.feed.origin == v.feed.origin
            &&& ended.feed.capacity == v.feed.capacity
            &&& ended.feed.slots == v.feed.slots
            &&& v.state == stopped ==> ended.feed.emitted == v.feed.emitted.push(
                RusnelEventView::Exited { reason },
            )
            &&& v.state != stopped ==> ended.feed.emitted == v.feed.emitted.push(
                RusnelEventView::StateChange { from: v.state, to: stopped },
            ).push(RusnelEventView::Exited { reason })
        }),
{
}

/// To let a task go changes nothing but that.
pub proof fn law_detaching_changes_only_the_task(v: HandleView)
    ensures
        v.detached().state == v.state,
        v.detached().feed == v.feed,
        v.detached().session == v.session,
        v.detached().task is Empty,
{
}

/// A start is accepted exactly where there is no previous task or it has exited; a stop waits for
/// exactly the session whose task it took; and no two sessions in a row have the same number.
pub proof fn law_slots_admit_and_await(slot: Slot, finished: bool, session: u64, other: u64)
    ensures
        slot.admits(finished) <==> slot is Empty || finished,
        slot.awaits(session) <==> slot is Awaited && slot->session == session,
        slot is Awaited ==> slot.probe() == Some(slot->probe),
        slot matches Slot::Left(probe) ==> slot.probe() == Some(probe),
        slot is Empty || slot is Owned ==> slot.probe() is None,
        next_session(session) != session,
        next_session(session) == next_session(other) ==> session == other,
{
}

/// The capacities that can be asked for, the one that is taken by default, and the seconds that a
/// stop waits.
pub proof fn law_limits(capacity: nat)
    ensures
        valid_capacity(capacity) <==> 0 < capacity <= usize::MAX / 256 + 1,
        MAX_EVENT_CAPACITY == usize::MAX / 256 + 1,
        DEFAULT_EVENT_CAPACITY == 256,
        valid_capacity(DEFAULT_EVENT_CAPACITY as nat),
        STOP_TIMEOUT_SECS == 5,
{
}

/// One more event is one more exit exactly when it tells of one.
proof fn lemma_exits_push(events: Seq<RusnelEventView>, event: RusnelEventView)
    ensures
        exits(events.push(event)) == exits(events) + if event is Exited {
            1nat
        } else {
            0nat
        },
{
    assert(events.push(event).drop_last() =~= events);
}

/// A transition tells of no exit.
proof fn lemma_exits_moved(v: HandleView, to: LifecycleStateView)
    ensures
        exits(v.moved(to).feed.emitted) == exits(v.feed.emitted),
{
    if v.state != to {
        lemma_exits_push(v.feed.emitted, RusnelEventView::StateChange { from: v.state, to });
    }
}

/// Exits are announced exactly where sessions end: over any run, there are as many events that
/// tell of an exit as there are ends of sessions.
pub proof fn law_exits_are_session_ends(v: HandleView, operations: Seq<Operation>)
    ensures
        exits(run(v, operations).feed.emitted) == exits(v.feed.emitted) + session_ends(operations),
    decreases operations.len(),
{
    if operations.len() > 0 {
        let rest = operations.drop_last();
        law_exits_are_session_ends(v, rest);
        let before = run(v, rest);
        match operations.last() {
            Operation::EndSession { reason } => {
                let stopped = before.moved(LifecycleStateView::Stopped { reason });
                lemma_exits_moved(before, LifecycleStateView::Stopped { reason });
                lemma_exits_push(stopped.feed.emitted, RusnelEventView::Exited { reason });
            },
            other => lemma_exits_moved(before, apply(before, other).state),
        }
    }
}

/// Changes are announced exactly where the state changes: over any run, the events that were added
/// are one for each operation that changed the state and one for each end of a session.
pub proof fn law_changes_are_told_one_by_one(v: HandleView, operations: Seq<Operation>)
    ensures
        run(v, operations).feed.emitted.len() == v.feed.emitted.len() + state_changes(v, operations)
            + session_ends(operations),
    decreases operations.len(),
{
    if operations.len() > 0 {
        law_changes_are_told_one_by_one(v, operations.drop_last());
    }
}

/// Every change that the events tell of is one that an operation made: it leads from the state
/// before that operation to the state after it. No state is told of that the handle was never in.
pub proof fn law_told_changes_were_made(v: HandleView, operations: Seq<Operation>)
    ensures
        forall|i: int|
            v.feed.emitted.len() <= i < run(v, operations).feed.emitted.len() ==> tells_a_step(
                v,
                operations,
                #[trigger] run(v, operations).feed.emitted[i],
            ),
    decreases operations.len(),
{
    if operations.len() > 0 {
        let rest = operations.drop_last();
        let n = operations.len() - 1;
        let before = run(v, rest);
        let after = run(v, operations);
        law_told_changes_were_made(v, rest);
        law_events_only_grow(v, rest);
        assert(operations.take(n) =~= rest);
        assert(operations.take(n + 1) =~= operations);
        assert forall|i: int| v.feed.emitted.len() <= i < after.feed.emitted.len() implies
            tells_a_step(v, operations, #[trigger] after.feed.emitted[i]) by {
            if i < before.feed.emitted.len() {
                assert(after.feed.emitted[i] == before.feed.emitted[i]);
                let event = before.feed.emitted[i];
                assert(tells_a_step(v, rest, event));
                if event is StateChange {
                    let k = choose|k: int|
                        0 <= k < rest.len() && event->from == (#[trigger] run(
                            v,
                            rest.take(k),
                        )).state && event->to == run(v, rest.take(k + 1)).state;
                    assert(operations.take(k) =~= rest.take(k));
                    assert(operations.take(k + 1) =~= rest.take(k + 1));
                    assert(event->from == run(v, operations.take(k)).state);
                }
            } else if after.feed.emitted[i] is StateChange {
                assert(after.feed.emitted[i]->from == run(v, operations.take(n)).state);
            }
        }
    }
}

/// What was emitted stays: later operations only add events, to the same channel.
pub proof fn law_events_only_grow(v: HandleView, operations: Seq<Operation>)
    ensures
        v.feed.emitted.is_prefix_of(run(v, operations).feed.emitted),
        run(v, operations).feed.origin == v.feed.origin,
        run(v, operations).feed.capacity == v.feed.capacity,
        run(v, operations).feed.slots == v.feed.slots,
    decreases operations.len(),
{
    if operations.len() > 0 {
        law_events_only_grow(v, operations.drop_last());
    }
}

/// A receiver is owed the events that are emitted after it subscribed, all of them, in order,
/// and none of those before.
pub proof fn law_subscriber_is_owed_later_events(
    v: HandleView,
    joined: Subscription<RusnelEvent>,
    operations: Seq<Operation>,
)
    requires
        joined == (Subscription { origin: v.feed.origin, from: v.feed.emitted.len() }),
    ensures
        joined.origin == run(v, operations).feed.origin,
        run(v, operations).feed.emitted == v.feed.emitted + run(v, operations).feed.due(joined),
{
    law_events_only_grow(v, operations);
}

/// A full event buffer keeps the newest events. A receiver that has read nothing yet can still
/// read every event since it subscribed, in order, while they are no more than the capacity asked
/// for; when they are more, it can read at least as many as that, the newest ones, in order, and
/// so never misses the last.
pub proof fn law_buffer_keeps_the_newest(
    v: HandleView,
    joined: Subscription<RusnelEvent>,
    operations: Seq<Operation>,
)
    requires
        slots_for(v.feed.capacity, v.feed.slots),
        joined == (Subscription { origin: v.feed.origin, from: v.feed.emitted.len() }),
    ensures
        ({
            let now = run(v, operations).feed;
            let due = now.due(joined);
            let readable = now.readable(joined);
            &&& due.len() <= v.feed.capacity ==> readable == due
            &&& due.len() > v.feed.capacity ==> readable.len() >= v.feed.capacity
            &&& readable.len() == if due.len() <= v.feed.slots {
                due.len()
            } else {
                v.feed.slots
            }
            &&& readable == due.skip(due.len() - readable.len())
            &&& due.len() > 0 ==> readable.last() == due.last()
        }),
{
    law_events_only_grow(v, operations);
    let now = run(v, operations).feed;
    assert(now.due(joined).skip(0) =~= now.due(joined));
}

/// The number of slots of an event buffer is determined by the capacity asked for.
pub proof fn law_slots_are_determined(capacity: nat, slots: nat, other: nat)
    requires
        slots_for(capacity, slots),
        slots_for(capacity, other),
    ensures
        slots == other,
{
    lemma_close_powers(slots as int, other as int);
}

/// Two powers of two of which neither is twice the other or more are the same.
proof fn lemma_close_powers(a: int, b: int)
    requires
        is_pow2(a),
        is_pow2(b),
        a < 2 * b,
        b < 2 * a,
    ensures
        a == b,
    decreases a,
{
    reveal(is_pow2);
    if a > 1 && b > 1 {
        lemma_close_powers(a / 2, b / 2);
    }
}

/// Whether the session that was started last is live: neither its end nor the end of the wait
/// for it was seen. The end of a session is the end of that one: a start is accepted only once the
/// previous task has exited, so no earlier session is left to end.
pub open spec fn live(fresh: HandleView, operations: Seq<Operation>) -> bool
    decreases operations.len(),
{
    if operations.len() == 0 {
        false
    } else {
        let rest = operations.drop_last();
        match operations.last() {
            Operation::Start { task: _ } => true,
            Operation::FinishStop { session, wait: _ } => live(fresh, rest) && !run(
                fresh,
                rest,
            ).task.awaits(session),
            Operation::EndSession { reason: _ } => false,
            _ => live(fresh, rest),
        }
    }
}

/// Whether a handle was never made to let its task go.
pub open spec fn kept(operations: Seq<Operation>) -> bool {
    forall|i: int| 0 <= i < operations.len() ==> !(#[trigger] operations[i] is Detach)
}

/// The running state is the one in which the handle owns a live client task.
pub proof fn law_running_while_owning_a_live_task(fresh: HandleView, operations: Seq<Operation>)
    requires
        fresh.state is Idle,
        fresh.task is Empty,
        kept(operations),
    ensures
        run(fresh, operations).state is Running <==> {
            &&& run(fresh, operations).task is Owned
            &&& live(fresh, operations)
        },
    decreases operations.len(),
{
    if operations.len() > 0 {
        let rest = operations.drop_last();
        assert forall|i: int| 0 <= i < rest.len() implies !(#[trigger] rest[i] is Detach) by {
            assert(rest[i] == operations[i]);
        }
        law_running_while_owning_a_live_task(fresh, rest);
        assert(!(operations[operations.len() - 1] is Detach));
    }
}

/// A task that the handle owns runs or has ended, and one that a stop waits for is being stopped or
/// has ended. So a stop of a session that has not ended finds it running, and tells exactly the
/// change from there to stopping, whatever was done to the handle before.
pub proof fn law_a_stop_finds_its_session_running_or_ended(
    fresh: HandleView,
    operations: Seq<Operation>,
    probe: AbortHandle,
)
    requires
        fresh.task is Empty,
    ensures
        ({
            let v = run(fresh, operations);
            &&& v.task is Owned ==> v.state is Running || v.state is Stopped
            &&& v.task is Awaited ==> v.state is Stopping || v.state is Stopped
            &&& v.task is Owned && !(v.state is Stopped) ==> {
                &&& v.stopping(probe).state is Stopping
                &&& v.stopping(probe).feed.emitted == v.feed.emitted.push(
                    RusnelEventView::StateChange {
                        from: LifecycleStateView::Running,
                        to: LifecycleStateView::Stopping,
                    },
                )
            }
        }),
    decreases operations.len(),
{
    if operations.len() > 0 {
        law_a_stop_finds_its_session_running_or_ended(fresh, operations.drop_last(), probe);
    }
}

/// Whether a run holds an accepted start.
pub open spec fn has_start(operations: Seq<Operation>) -> bool {
    exists|i: int| 0 <= i < operations.len() && #[trigger] operations[i] is Start
}

/// Whether a run is one of calls that each ran to their end, on a handle that kept its task: no
/// wait was given up, and sessions ended only after a start.
pub open spec fn completed(operations: Seq<Operation>) -> bool {
    forall|i: int|
        0 <= i < operations.len() ==> {
            &&& !(#[trigger] operations[i] is Detach)
            &&& !(operations[i] is AbandonStop)
            &&& operations[i] is EndSession ==> has_start(operations.take(i))
        }
}

/// A run holds a start where a shorter one does or its last operation is one.
proof fn lemma_has_start_longer(operations: Seq<Operation>)
    requires
        operations.len() > 0,
    ensures
        has_start(operations) <==> has_start(operations.drop_last()) || operations.last() is Start,
{
    let rest = operations.drop_last();
    if has_start(rest) {
        let i = choose|i: int| 0 <= i < rest.len() && #[trigger] rest[i] is Start;
        assert(operations[i] is Start);
    }
    if has_start(operations) && !(operations.last() is Start) {
        let i = choose|i: int| 0 <= i < operations.len() && #[trigger] operations[i] is Start;
        assert(rest[i] is Start);
    }
}

/// A shorter run is as completed.
proof fn lemma_completed_shorter(operations: Seq<Operation>)
    requires
        operations.len() > 0,
        completed(operations),
    ensures
        completed(operations.drop_last()),
        !(operations.last() is Detach),
        !(operations.last() is AbandonStop),
        operations.last() is EndSession ==> has_start(operations.drop_last()),
{
    let rest = operations.drop_last();
    let n = operations.len() - 1;
    assert forall|i: int| 0 <= i < rest.len() implies {
        &&& !(#[trigger] rest[i] is Detach)
        &&& !(rest[i] is AbandonStop)
        &&& rest[i] is EndSession ==> has_start(rest.take(i))
    } by {
        assert(rest[i] == operations[i]);
        assert(rest.take(i) =~= operations.take(i));
    }
    assert(operations.take(n) =~= rest);
    assert(operations[n] == operations.last());
}

/// What holds after each operation of a run of completed calls.
proof fn lemma_completed(fresh: HandleView, operations: Seq<Operation>)
    requires
        fresh.state is Idle,
        fresh.task is Empty,
        completed(operations),
    ensures
        run(fresh, operations).state is Idle <==> !has_start(operations),
        run(fresh, operations).state is Idle ==> run(fresh, operations).task is Empty,
        run(fresh, operations).state is Running ==> run(fresh, operations).task is Owned,
        run(fresh, operations).state is Stopping ==> run(fresh, operations).task is Awaited,
    decreases operations.len(),
{
    if operations.len() > 0 {
        lemma_completed_shorter(operations);
        lemma_has_start_longer(operations);
        lemma_completed(fresh, operations.drop_last());
    }
}

/// Whether the last operation of a run completes a stop: one that finds no task to wait for, or
/// the end of the wait of one.
pub open spec fn ends_with_stop(fresh: HandleView, operations: Seq<Operation>) -> bool {
    operations.len() > 0 && match operations.last() {
        Operation::Stop { probe: _ } => !(run(fresh, operations).task is Awaited),
        Operation::FinishStop { session, wait: _ } => run(
            fresh,
            operations.drop_last(),
        ).task.awaits(session),
        _ => false,
    }
}

/// Completed calls that end with a stop leave the handle idle or stopped, and idle exactly when
/// no start was accepted.
pub proof fn law_stop_leaves_idle_or_stopped(fresh: HandleView, operations: Seq<Operation>)
    requires
        fresh.state is Idle,
        fresh.task is Empty,
        completed(operations),
        ends_with_stop(fresh, operations),
    ensures
        run(fresh, operations).state is Idle || run(fresh, operations).state is Stopped,
        run(fresh, operations).state is Idle <==> !has_start(operations),
{
    lemma_completed(fresh, operations);
}

/// A run that leads from a state that is not stopped to a stopped one tells of a stopped state.
proof fn lemma_stopping_is_told(v: HandleView, operations: Seq<Operation>)
    requires
        !(v.state is Stopped),
        run(v, operations).state is Stopped,
    ensures
        tells_stopped(run(v, operations).feed.emitted, v.feed.emitted.len()),
    decreases operations.len(),
{
    let rest = operations.drop_last();
    let before = run(v, rest);
    let after = run(v, operations);
    law_events_only_grow(v, rest);
    if before.state is Stopped {
        lemma_stopping_is_told(v, rest);
        let i = choose|i: int|
            v.feed.emitted.len() <= i < before.feed.emitted.len() && (
            #[trigger] before.feed.emitted[i] matches RusnelEventView::StateChange { from: _, to }
                && to is Stopped);
        assert(after.feed.emitted[i] == before.feed.emitted[i]);
    } else {
        let i = before.feed.emitted.len() as int;
        assert(after.feed.emitted[i] is StateChange);
    }
}

/// A stop that is carried through leaves the handle stopped, whatever was done to it while the
/// stop waited and however the wait ended, as long as no later session was started meanwhile.
/// Unless the handle was stopped before, the stop publishes a stopped state: who subscribed before
/// is told.
pub proof fn law_stop_publishes_stopped(
    v: HandleView,
    probe: AbortHandle,
    meanwhile: Seq<Operation>,
    wait: WaitOutcome,
)
    requires
        v.task is Owned,
        run(v.stopping(probe), meanwhile).task.awaits(v.task->Owned_0.session),
    ensures
        ({
            let waiting = run(v.stopping(probe), meanwhile);
            let done = waiting.stop_finished(v.task->Owned_0.session, wait);
            &&& done.state is Stopped
            &&& !(v.state is Stopped) ==> tells_stopped(done.feed.emitted, v.feed.emitted.len())
        }),
{
    let begun = v.stopping(probe);
    let waiting = run(begun, meanwhile);
    let done = waiting.stop_finished(v.task->Owned_0.session, wait);
    law_events_only_grow(begun, meanwhile);
    if v.state is Stopped {
    } else if waiting.state is Stopped {
        lemma_stopping_is_told(begun, meanwhile);
        let i = choose|i: int|
            begun.feed.emitted.len() <= i < waiting.feed.emitted.len() && (
            #[trigger] waiting.feed.emitted[i] matches RusnelEventView::StateChange {
                from: _,
                to,
            } && to is Stopped);
        assert(done.feed.emitted[i] == waiting.feed.emitted[i]);
    } else {
        assert(done.feed.emitted[waiting.feed.emitted.len() as int] is StateChange);
    }
}

/// A reason that the session wrote is the reason that stays once it has exited, be it written
/// before the stop or while the stop waits, and the stop tells nothing further; only without one
/// did the user stop it.
pub proof fn law_specific_reason_wins(v: HandleView, probe: AbortHandle, reason: ExitReasonView)
    requires
        v.task is Owned,
    ensures
        ({
            let session = v.task->Owned_0.session;
            let ended = v.stopping(probe).session_ended(reason);
            let exited = v.stopping(probe).stop_finished(session, WaitOutcome::Exited);
            &&& ended.state == (LifecycleStateView::Stopped { reason })
            &&& ended.stop_finished(session, WaitOutcome::Exited) == (HandleView {
                task: Slot::Empty,
                ..ended
            })
            &&& v.state is Stopped ==> exited == (HandleView { task: Slot::Empty, ..v })
            &&& !(v.state is Stopped) ==> exited.state == (LifecycleStateView::Stopped {
                reason: ExitReasonView::UserStopped,
            })
        }),
{
}

/// There is at most one session at a time: after an accepted start no other is accepted until its
/// task has exited, be it that the task runs, that a stop waits for it, that the stop gave up, or
/// that the stop timed out and aborted it. A stop that saw the task exit makes room for the next.
pub proof fn law_one_session_at_a_time(
    v: HandleView,
    task: RunningTask,
    probe: AbortHandle,
    finished: bool,
)
    ensures
        ({
            let running = v.started(task);
            let waiting = running.stopping(probe);
            let abandoned = waiting.stop_abandoned(task.session);
            let timed_out = waiting.stop_finished(task.session, WaitOutcome::TimedOut);
            let exited = waiting.stop_finished(task.session, WaitOutcome::Exited);
            &&& running.task.admits(finished) <==> finished
            &&& waiting.task.admits(finished) <==> finished
            &&& abandoned.task.admits(finished) <==> finished
            &&& timed_out.task.admits(finished) <==> finished
            &&& exited.task.admits(finished)
        }),
{
}

/// A stop whose task exited and made room for a later session leaves that session alone when its
/// own wait ends, also when the later session is itself being stopped.
pub proof fn law_overtaken_stop_leaves_the_later_session_alone(
    v: HandleView,
    task: RunningTask,
    probe: AbortHandle,
    session: u64,
    wait: WaitOutcome,
)
    requires
        session != task.session,
    ensures
        v.started(task).stop_finished(session, wait) == v.started(task),
        v.started(task).stopping(probe).stop_finished(session, wait) == v.started(task).stopping(
            probe,
        ),
{
}

/// The end of a session leaves its reason as the state, and the exit is the last event of it.
pub proof fn law_exit_is_told_last(v: HandleView, reason: ExitReasonView)
    ensures
        v.session_ended(reason).state == (LifecycleStateView::Stopped { reason }),
        v.session_ended(reason).feed.emitted.last() == (RusnelEventView::Exited { reason }),
        v.session_ended(reason).feed.emitted.drop_last() == v.moved(
            LifecycleStateView::Stopped { reason },
        ).feed.emitted,
{
}

/// A transition to the state that a handle is in does nothing: a second one to the same state
/// changes and tells nothing.
pub proof fn law_transition_is_told_once(v: HandleView, to: LifecycleStateView)
    ensures
        v.moved(to).moved(to) == v.moved(to),
        v.moved(v.state) == v,
{
}

/// What a stop signals reaches the session that the start launched: the shutdown line that
/// carries the signal is the one whose receiver the session was given, it is the first signal on
/// it, and the session joined before.
pub proof fn law_stop_signals_the_launched_session<F>(
    launch: F,
    task: RunningTask,
    stopped: RunningTask,
) where F: FnOnce(broadcast::Receiver<()>) -> JoinHandle<()>
    requires
        launched(launch, task),
        stopped.handle == task.handle,
        stopped.line() == (Line { signals: task.line().signals + 1, ..task.line() }),
    ensures
        stopped.line().signals == 1,
        exists|rx: broadcast::Receiver<()>| #[trigger]
            call_ensures(launch, (rx,), stopped.handle) && listening(rx) == (Subscription {
                origin: stopped.line().origin,
                from: 0,
            }),
{
}

} // verus!
