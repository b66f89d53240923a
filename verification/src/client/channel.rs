//! The channels of a handle: the watched lifecycle state, the broadcast of events and the
//! line on which a session is told to shut down.
//!
//! Each type here holds the only sending end of its channel. The end is private to this module
//! and is never cloned or lent, so what was last written through a value of one of these types
//! is what its channel holds, and each write goes through `&mut`.
use tokio::sync::{broadcast, watch};
use vstd::arithmetic::power2::is_pow2;
use vstd::prelude::*;

use crate::client::lifecycle::{LifecycleState, LifecycleStateView, RusnelEvent, RusnelEventView};

verus! {

/// The sending end of a `tokio` watch channel, carried as an opaque value.
#[verifier::external_type_specification]
#[verifier::external_body]
#[verifier::reject_recursive_types(T)]
pub struct ExWatchSender<T>(watch::Sender<T>);

/// The sending end of a `tokio` broadcast channel, carried as an opaque value.
#[verifier::external_type_specification]
#[verifier::external_body]
#[verifier::reject_recursive_types(T)]
pub struct ExBroadcastSender<T>(broadcast::Sender<T>);

/// A receiving end of a `tokio` broadcast channel, carried as an opaque value.
#[verifier::external_type_specification]
#[verifier::external_body]
#[verifier::reject_recursive_types(T)]
pub struct ExBroadcastReceiver<T>(broadcast::Receiver<T>);

/// What has gone through the broadcast channel of lifecycle events.
pub struct Feed {
    /// The sending end that the channel was made with: it tells one channel from another.
    pub origin: broadcast::Sender<RusnelEvent>,
    /// The capacity that the channel was made with.
    pub capacity: nat,
    /// How many events the buffer of the channel holds: each one more replaces the oldest.
    pub slots: nat,
    /// Every event handed to the channel so far, oldest first.
    pub emitted: Seq<RusnelEventView>,
}

impl Feed {
    /// The events that a receiver which joined at `joined` and has read none yet was sent.
    pub open spec fn due(self, joined: Subscription<RusnelEvent>) -> Seq<RusnelEventView> {
        self.emitted.skip(joined.from as int)
    }

    /// Those of them that it can still read: the newest ones, as many as the buffer holds.
    pub open spec fn readable(self, joined: Subscription<RusnelEvent>) -> Seq<RusnelEventView> {
        let due = self.due(joined);
        if due.len() <= self.slots {
            due
        } else {
            due.skip(due.len() - self.slots)
        }
    }
}

/// What has gone through the broadcast channel on which one session is told to shut down.
pub struct Line {
    /// The sending end that the channel was made with: it tells one channel from another.
    pub origin: broadcast::Sender<()>,
    /// How many shutdown signals were handed to the channel so far.
    pub signals: nat,
}

/// Where a receiver joined its channel.
#[verifier::reject_recursive_types(T)]
pub struct Subscription<T> {
    /// The sending end that the channel was made with.
    pub origin: broadcast::Sender<T>,
    /// How many values had been handed to the channel before: the receiver gets the later ones.
    pub from: nat,
}

/// The value that a watch channel of lifecycle states holds.
pub uninterp spec fn watched(tx: watch::Sender<LifecycleState>) -> LifecycleStateView;

/// What has gone through a broadcast channel of lifecycle events.
pub uninterp spec fn feed(tx: broadcast::Sender<RusnelEvent>) -> Feed;

/// Where a receiver of lifecycle events joined its channel.
pub uninterp spec fn subscription(rx: broadcast::Receiver<RusnelEvent>) -> Subscription<RusnelEvent>;

/// What has gone through a broadcast channel of shutdown signals.
pub uninterp spec fn line(tx: broadcast::Sender<()>) -> Line;

/// Where a receiver of shutdown signals joined its channel.
pub uninterp spec fn listening(rx: broadcast::Receiver<()>) -> Subscription<()>;

/// Largest capacity with which a broadcast channel of events can be made.
pub const MAX_EVENT_CAPACITY: usize = usize::MAX / 256 + 1;

/// The capacities with which a broadcast channel of events can be made.
///
/// `tokio::sync::broadcast::channel` panics on zero, on more than `usize::MAX / 2`, and where the
/// buffer, which it allocates at once for the next power of two, exceeds the largest allocation
/// that the machine can address. A slot of the buffer takes less than 128 bytes for an event.
pub open spec fn valid_capacity(capacity: nat) -> bool {
    0 < capacity <= MAX_EVENT_CAPACITY
}

/// Whether `slots` is the number of slots of a buffer made for `capacity`: the least power of two
/// that is not below it, which is the only one below its double.
pub open spec fn slots_for(capacity: nat, slots: nat) -> bool {
    &&& is_pow2(slots as int)
    &&& capacity <= slots < 2 * capacity
}

/// The watched lifecycle state: one value, replaced by each write.
pub struct StateCell {
    tx: watch::Sender<LifecycleState>,
}

impl StateCell {
    /// The sending end of the channel.
    pub closed spec fn sender(&self) -> watch::Sender<LifecycleState> {
        self.tx
    }

    /// Calls `tokio::sync::watch::channel` and keeps the sending end: the channel holds the
    /// value that it was made with.
    #[verifier::external_body]
    pub(crate) fn new(init: LifecycleState) -> (cell: StateCell)
        ensures
            watched(cell.sender()) == init@,
    {
        let (tx, _) = watch::channel(init);
        StateCell { tx }
    }

    /// Calls `tokio::sync::watch::Sender::borrow` and clones what it lends, which gives an equal
    /// state: the value that the channel holds.
    #[verifier::external_body]
    pub(crate) fn get(&self) -> (state: LifecycleState)
        ensures
            state@ == watched(self.sender()),
    {
        self.tx.borrow().clone()
    }

    /// Calls `tokio::sync::watch::Sender::send_replace`, which stores the value also when
    /// nobody watches, and hands back the value that it took the place of.
    #[verifier::external_body]
    pub(crate) fn replace(&mut self, state: LifecycleState) -> (previous: LifecycleState)
        ensures
            watched(final(self).sender()) == state@,
            previous@ == watched(old(self).sender()),
    {
        self.tx.send_replace(state)
    }
}

/// The broadcast of lifecycle events.
pub struct EventBus {
    tx: broadcast::Sender<RusnelEvent>,
}

impl EventBus {
    /// The sending end of the channel.
    pub closed spec fn sender(&self) -> broadcast::Sender<RusnelEvent> {
        self.tx
    }

    /// Calls `tokio::sync::broadcast::channel` and keeps the sending end: nothing has gone
    /// through the channel yet. Its buffer has the least power of two of slots that is not below
    /// the capacity asked for.
    #[verifier::external_body]
    pub(crate) fn new(capacity: usize) -> (bus: EventBus)
        requires
            valid_capacity(capacity as nat),
        ensures
            feed(bus.sender()) == (Feed {
                origin: bus.sender(),
                capacity: capacity as nat,
                slots: feed(bus.sender()).slots,
                emitted: Seq::empty(),
            }),
            slots_for(capacity as nat, feed(bus.sender()).slots),
    {
        let (tx, _) = broadcast::channel(capacity);
        EventBus { tx }
    }

    /// Calls `tokio::sync::broadcast::Sender::send`: the event is the next one of the channel.
    /// The call stores it for the receivers that exist, in place of the oldest event of a full
    /// buffer, and waits for none of them; where there are none it reports so, which is no
    /// failure here, and the event reaches nobody.
    #[verifier::external_body]
    pub(crate) fn emit(&mut self, event: RusnelEvent)
        ensures
            feed(final(self).sender()) == (Feed {
                emitted: feed(old(self).sender()).emitted.push(event@),
                ..feed(old(self).sender())
            }),
    {
        let _ = self.tx.send(event);
    }

    /// Calls `tokio::sync::broadcast::Sender::subscribe`: the receiver belongs to this channel
    /// and gets the events that are emitted from now on. The call panics only where the channel
    /// has `usize::MAX / 4` receivers, more than the memory of any machine can hold.
    #[verifier::external_body]
    pub(crate) fn subscribe(&self) -> (rx: broadcast::Receiver<RusnelEvent>)
        ensures
            subscription(rx) == (Subscription {
                origin: feed(self.sender()).origin,
                from: feed(self.sender()).emitted.len(),
            }),
    {
        self.tx.subscribe()
    }
}

/// The line on which one session is told to shut down.
pub struct ShutdownLine {
    tx: broadcast::Sender<()>,
}

impl ShutdownLine {
    /// The sending end of the channel.
    pub closed spec fn sender(&self) -> broadcast::Sender<()> {
        self.tx
    }

    /// Calls `tokio::sync::broadcast::channel` for one signal: nothing has gone through the
    /// channel yet, and the receiver belongs to it from the start.
    #[verifier::external_body]
    pub(crate) fn open() -> (ends: (ShutdownLine, broadcast::Receiver<()>))
        ensures
            line(ends.0.sender()) == (Line { origin: ends.0.sender(), signals: 0 }),
            listening(ends.1) == (Subscription { origin: ends.0.sender(), from: 0 }),
    {
        let (tx, rx) = broadcast::channel::<()>(1);
        (ShutdownLine { tx }, rx)
    }

    /// Calls `tokio::sync::broadcast::Sender::send` with the signal: one more has gone through
    /// the channel. A session that no longer listens is no failure.
    #[verifier::external_body]
    pub(crate) fn signal(&mut self)
        ensures
            line(final(self).sender()) == (Line {
                signals: line(old(self).sender()).signals + 1,
                ..line(old(self).sender())
            }),
    {
        let _ = self.tx.send(());
    }
}

} // verus!
