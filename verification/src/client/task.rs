//! The task that runs a client session.
use tokio::task::{AbortHandle, JoinHandle};
use vstd::prelude::*;

use crate::client::channel::{line, Line, ShutdownLine};

verus! {

/// The owning handle of a spawned `tokio` task, carried as an opaque value.
#[verifier::external_type_specification]
#[verifier::external_body]
#[verifier::reject_recursive_types(T)]
pub struct ExJoinHandle<T>(JoinHandle<T>);

/// How a spawned `tokio` task failed, which is what its handle yields when awaited.
#[verifier::external_type_specification]
#[verifier::external_body]
pub struct ExJoinError(tokio::task::JoinError);

/// A handle on a spawned `tokio` task that does not own it, carried as an opaque value.
#[verifier::external_type_specification]
#[verifier::external_body]
pub struct ExAbortHandle(AbortHandle);

/// What is known of the task behind a handle.
pub struct TaskRecord {
    /// The handle that the task was spawned with: it tells one task from another.
    pub origin: JoinHandle<()>,
    /// How often the task was asked to abort through the handle.
    pub aborts: nat,
}

/// What is known of the task behind an owning handle.
pub uninterp spec fn record(handle: JoinHandle<()>) -> TaskRecord;

/// The handle with which the task behind `probe` was spawned.
pub uninterp spec fn probed(probe: AbortHandle) -> JoinHandle<()>;

/// Specifies `tokio::task::JoinHandle::is_finished`. The answer depends on how far the task has
/// come, so nothing is claimed of it.
pub assume_specification<T>[ JoinHandle::<T>::is_finished ](handle: &JoinHandle<T>) -> bool
;

/// Specifies `tokio::task::AbortHandle::is_finished`. The answer depends on how far the task has
/// come, so nothing is claimed of it.
pub assume_specification[ AbortHandle::is_finished ](probe: &AbortHandle) -> bool
;

/// Asks `question` of the task behind `handle`.
pub(crate) fn ask<H, Q>(question: Q, handle: &H) -> (answer: bool) where Q: Fn(&H) -> bool
    requires
        call_requires(question, (handle,)),
    ensures
        call_ensures(question, (handle,), answer),
{
    question(handle)
}

/// Calls `tokio::task::JoinHandle::abort`, which asks the task to end at its next suspension. The
/// handle stays that of the same task.
#[verifier::external_body]
fn abort_task(handle: &mut JoinHandle<()>)
    ensures
        record(*final(handle)) == (TaskRecord {
            aborts: record(*old(handle)).aborts + 1,
            ..record(*old(handle))
        }),
{
    handle.abort();
}

/// Calls `tokio::task::JoinHandle::abort_handle`: the new handle is one on the same task.
#[verifier::external_body]
fn probe_task(handle: &JoinHandle<()>) -> (probe: AbortHandle)
    ensures
        probed(probe) == record(*handle).origin,
{
    handle.abort_handle()
}

/// How the wait for a task to exit ended.
#[derive(Debug, Clone, Copy)]
pub enum WaitOutcome {
    /// The task exited within the time allowed.
    Exited,
    /// The time allowed ran out first.
    TimedOut,
}

/// A spawned client task and the line on which it is told to shut down.
pub struct RunningTask {
    /// Number of the session that the task runs.
    pub session: u64,
    /// Handle on the isolated client future.
    pub handle: JoinHandle<()>,
    /// Line paired with the receiver that the client future was given.
    pub shutdown: ShutdownLine,
}

/// What a handle keeps of the session that was started last.
pub enum Slot {
    /// Nothing: there was none, or its task has exited or was let go.
    Empty,
    /// The task, which the handle owns.
    Owned(RunningTask),
    /// A stop took the task and waits for it to exit.
    Awaited {
        /// Number of the session.
        session: u64,
        /// Tells whether the task has exited.
        probe: AbortHandle,
    },
    /// A stop took the task and its wait ended before the task exited.
    Left(AbortHandle),
}

impl Slot {
    /// What a task that a stop took can be asked through.
    pub open spec fn probe(self) -> Option<AbortHandle> {
        match self {
            Slot::Awaited { session: _, probe } => Some(probe),
            Slot::Left(probe) => Some(probe),
            _ => None,
        }
    }

    /// Whether a stop of `session` waits.
    pub open spec fn awaits(self, session: u64) -> bool {
        self matches Slot::Awaited { session: awaited, probe: _ } && awaited == session
    }

    /// Whether a start is accepted, where `finished` says whether the previous task, if one is
    /// known, has exited: there must be none that is yet to exit.
    pub open spec fn admits(self, finished: bool) -> bool {
        self is Empty || finished
    }
}

impl RunningTask {
    /// What has gone through the shutdown line of the task.
    pub open spec fn line(&self) -> Line {
        line(self.shutdown.sender())
    }

    /// Tells the task to shut down.
    pub(crate) fn signal_shutdown(&mut self)
        ensures
            final(self).session == old(self).session,
            final(self).handle == old(self).handle,
            final(self).line() == (Line { signals: old(self).line().signals + 1, ..old(self).line() }),
    {
        self.shutdown.signal();
    }

    /// Asks the task to abort.
    pub(crate) fn abort(&mut self)
        ensures
            final(self).session == old(self).session,
            final(self).shutdown == old(self).shutdown,
            record(final(self).handle) == (TaskRecord {
                aborts: record(old(self).handle).aborts + 1,
                ..record(old(self).handle)
            }),
    {
        abort_task(&mut self.handle);
    }

    /// A handle through which to ask whether the task has exited.
    pub(crate) fn probe(&self) -> (probe: AbortHandle)
        ensures
            probed(probe) == record(self.handle).origin,
    {
        probe_task(&self.handle)
    }
}

} // verus!
