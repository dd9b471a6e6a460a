//! The connection session: the rules by which one viewer's connection is
//! served.
//!
//! A connection is served by two loops that share one subscription. The
//! outbound loop takes snapshots from the subscription's queue and writes
//! them to the viewer. The inbound loop reads what the viewer sends: any
//! message asks for the current snapshot. A session decides; the loops
//! around it do the reading and the writing and report what came of it. When
//! either loop stops, the session stops, and the other loop with it.

use crate::hub::{Dequeued, FanoutHub, Subscription};
use crate::hub_state::{offered, HubState};
use crate::snapshot::{ScoreData, Snapshot};
use crate::store::{replaced_by_all, ScoreStore};
use vstd::prelude::*;

verus! {

/// What the inbound loop read from the viewer.
#[derive(Debug, Clone, Copy, PartialEq, Eq, Structural)]
pub enum Inbound {
    /// A message of the viewer's application, whatever it holds.
    Message,
    /// A frame of the transport's own, such as a ping.
    Control,
    /// The viewer closed the connection.
    Close,
    /// Reading failed, or the connection ended without a word.
    Failed,
}

/// What a loop does after a step.
#[derive(Debug, Clone, Copy, PartialEq, Eq, Structural)]
pub enum Directive {
    /// Go on with the next step.
    Continue,
    /// Leave the loop: the session is over.
    Stop,
}

/// What the outbound loop does next.
#[derive(Debug, PartialEq, Eq)]
pub enum Outbound {
    /// Write this snapshot to the viewer, and report how that went.
    Write(ScoreData),
    /// Nothing waits: wait for the next snapshot.
    Idle,
    /// Leave the loop: the session is over.
    Stop,
}

/// One viewer's session: its subscription, and whether it still runs.
#[derive(Debug)]
pub struct Session {
    subscription: Subscription,
    running: bool,
}

/// What a session is.
pub struct SessionState {
    pub subscription: u64,
    pub running: bool,
}

impl View for Session {
    type V = SessionState;

    closed spec fn view(&self) -> SessionState {
        SessionState { subscription: self.subscription@, running: self.running }
    }
}

/// The hub after the subscription `id` was sent the current snapshot, where
/// there is one.
pub open spec fn synced(hub: HubState, id: u64, current: Option<Snapshot>) -> HubState {
    match current {
        Some(snapshot) => hub.send_to(id, snapshot),
        None => hub,
    }
}

impl SessionState {
    /// The session, stopped.
    pub open spec fn stopped(self) -> SessionState {
        SessionState { subscription: self.subscription, running: false }
    }

    /// The session after the inbound loop read `event`. Reading that fails,
    /// and a close, stop a running session; nothing else changes it.
    pub open spec fn after_inbound(self, event: Inbound) -> SessionState {
        if self.running && (event == Inbound::Close || event == Inbound::Failed) {
            self.stopped()
        } else {
            self
        }
    }

    /// The hub after the inbound loop read `event`: a message, read while
    /// the session runs, has the current snapshot sent to this session's
    /// queue; nothing else touches the hub.
    pub open spec fn hub_after_inbound(
        self,
        event: Inbound,
        hub: HubState,
        current: Option<Snapshot>,
    ) -> HubState {
        if self.running && event == Inbound::Message {
            synced(hub, self.subscription, current)
        } else {
            hub
        }
    }

    /// What the inbound loop does after it read `event`.
    pub open spec fn inbound_directive(self, event: Inbound) -> Directive {
        if self.after_inbound(event).running {
            Directive::Continue
        } else {
            Directive::Stop
        }
    }

    /// Whether the outbound loop finds a snapshot to write.
    pub open spec fn has_next(self, hub: HubState) -> bool {
        self.running && hub.is_live(self.subscription) && hub.queues[self.subscription].len() > 0
    }

    /// The session after the outbound loop looked for its next snapshot: a
    /// running session stops when its subscription has ended.
    pub open spec fn after_outbound(self, hub: HubState) -> SessionState {
        if self.running && !hub.is_live(self.subscription) {
            self.stopped()
        } else {
            self
        }
    }

    /// The hub after the outbound loop looked for its next snapshot: a
    /// running session takes the oldest that waits for it.
    pub open spec fn hub_after_outbound(self, hub: HubState) -> HubState {
        if self.running {
            hub.take_first(self.subscription)
        } else {
            hub
        }
    }

    /// The session after a write was reported: a write that failed stops it.
    pub open spec fn after_write(self, written: bool) -> SessionState {
        if written {
            self
        } else {
            self.stopped()
        }
    }
}

/// What a queue is after the current snapshot was sent to it: the snapshot
/// behind what waited, where there is one and the queue has room.
pub open spec fn sent_current(queue: Seq<Snapshot>, capacity: nat, current: Option<Snapshot>) -> Seq<
    Snapshot,
> {
    match current {
        Some(snapshot) => offered(queue, capacity, snapshot),
        None => queue,
    }
}

/// A session that asks for the current state is sent what the store holds,
/// which is the snapshot of the last replacement, and nothing where the
/// store holds none. It is sent to that session's queue alone.
pub proof fn law_request_is_answered_from_store(
    session: SessionState,
    hub: HubState,
    held: Option<Snapshot>,
    snapshots: Seq<Snapshot>,
    other: u64,
)
    requires
        session.running,
        hub.is_live(session.subscription),
        other != session.subscription,
    ensures
        snapshots.len() > 0 ==> replaced_by_all(held, snapshots) == Some(snapshots.last()),
        snapshots.len() == 0 ==> replaced_by_all(held, snapshots) == held,
        session.hub_after_inbound(
            Inbound::Message,
            hub,
            replaced_by_all(held, snapshots),
        ).queues[session.subscription] == sent_current(
            hub.queues[session.subscription],
            hub.capacity,
            replaced_by_all(held, snapshots),
        ),
        session.hub_after_inbound(Inbound::Message, hub, replaced_by_all(held, snapshots)).is_live(
            other,
        ) == hub.is_live(other),
        session.hub_after_inbound(
            Inbound::Message,
            hub,
            replaced_by_all(held, snapshots),
        ).queues[other] == hub.queues[other],
{
}

/// A session that opens finds in its queue the snapshot that the store
/// holds, and nothing else: nothing of what was published before it opened.
/// The subscriptions that were live keep their queues.
pub proof fn law_open_sends_current(hub: HubState, current: Option<Snapshot>, other: u64)
    requires
        hub.wf(),
        hub.issued < u64::MAX,
        hub.is_live(other),
    ensures
        other != hub.next_id(),
        synced(hub.subscribe(), hub.next_id(), current).is_live(hub.next_id()),
        synced(hub.subscribe(), hub.next_id(), current).queues[hub.next_id()] == sent_current(
            Seq::empty(),
            hub.capacity,
            current,
        ),
        synced(hub.subscribe(), hub.next_id(), current).queues[other] == hub.queues[other],
{
    assert(hub.queues.dom().contains(other));
}

/// What goes wrong in a session stays in it: a close, a failed read and a
/// failed write stop that session and leave the hub, and with it every other
/// session, as they were.
pub proof fn law_failure_is_local(session: SessionState, hub: HubState, current: Option<Snapshot>)
    ensures
        session.hub_after_inbound(Inbound::Close, hub, current) == hub,
        session.hub_after_inbound(Inbound::Failed, hub, current) == hub,
        !session.after_inbound(Inbound::Close).running,
        !session.after_inbound(Inbound::Failed).running,
        !session.after_write(false).running,
        session.inbound_directive(Inbound::Close) == Directive::Stop,
        session.inbound_directive(Inbound::Failed) == Directive::Stop,
{
}

/// A session that has stopped stays stopped, whatever its loops report, and
/// no longer touches the hub.
pub proof fn law_stopped_session_stays_stopped(
    session: SessionState,
    event: Inbound,
    written: bool,
    hub: HubState,
    current: Option<Snapshot>,
)
    requires
        !session.running,
    ensures
        !session.after_inbound(event).running,
        !session.after_outbound(hub).running,
        !session.after_write(written).running,
        session.inbound_directive(event) == Directive::Stop,
        session.hub_after_inbound(event, hub, current) == hub,
        session.hub_after_outbound(hub) == hub,
{
}

impl Session {
    /// Opens a session: subscribes to the hub and sends the new subscription
    /// the current snapshot, where there is one, so that a viewer who joins
    /// late does not wait for the next update.
    pub fn open(hub: &mut FanoutHub, store: &ScoreStore) -> (session: Session)
        requires
            old(hub)@.issued < u64::MAX,
        ensures
            session@.running,
            session@.subscription == old(hub)@.next_id(),
            final(hub)@ == synced(old(hub)@.subscribe(), session@.subscription, store@),
            final(hub)@.wf(),
    {
        let subscription = hub.subscribe();
        let session = Session { subscription, running: true };
        session.sync(hub, store);
        session
    }

    /// Sends this session's queue the current snapshot, where there is one.
    fn sync(&self, hub: &mut FanoutHub, store: &ScoreStore)
        ensures
            final(hub)@ == synced(old(hub)@, self@.subscription, store@),
            old(hub)@.wf() ==> final(hub)@.wf(),
    {
        match store.read() {
            Some(snapshot) => {
                let _ = hub.send_to(&self.subscription, snapshot);
            },
            None => {},
        }
    }

    /// Whether the session still runs.
    pub fn is_running(&self) -> (running: bool)
        ensures
            running == self@.running,
    {
        self.running
    }

    /// The subscription that the session's loops share.
    pub fn subscription(&self) -> (subscription: &Subscription)
        ensures
            subscription@ == self@.subscription,
    {
        &self.subscription
    }

    /// Stops the session: both loops leave at their next step.
    pub fn stop(&mut self)
        ensures
            final(self)@ == old(self)@.stopped(),
    {
        self.running = false;
    }

    /// A step of the inbound loop, after it read `event`. A message asks
    /// for the current snapshot, which is sent to this session's own queue
    /// and to no other; a close or a failure stops the session. The store is
    /// only read, and no other subscription is touched.
    pub fn on_inbound(&mut self, event: Inbound, hub: &mut FanoutHub, store: &ScoreStore) -> (next:
        Directive)
        ensures
            final(self)@ == old(self)@.after_inbound(event),
            final(hub)@ == old(self)@.hub_after_inbound(event, old(hub)@, store@),
            next == old(self)@.inbound_directive(event),
    {
        if !self.running {
            return Directive::Stop;
        }
        match event {
            Inbound::Message => {
                self.sync(hub, store);
                Directive::Continue
            },
            Inbound::Control => Directive::Continue,
            Inbound::Close => {
                self.running = false;
                Directive::Stop
            },
            Inbound::Failed => {
                self.running = false;
                Directive::Stop
            },
        }
    }

    /// A step of the outbound loop: what it does next. A running session
    /// takes the oldest snapshot that waits for it, to be written; it idles
    /// where none waits, and stops where its subscription has ended.
    pub fn next_outbound(&mut self, hub: &mut FanoutHub) -> (next: Outbound)
        ensures
            final(self)@ == old(self)@.after_outbound(old(hub)@),
            final(hub)@ == old(self)@.hub_after_outbound(old(hub)@),
            match next {
                Outbound::Write(message) => old(self)@.has_next(old(hub)@) && message@ == old(
                    hub,
                )@.queues[old(self)@.subscription].first(),
                Outbound::Idle => final(self)@.running && !old(self)@.has_next(old(hub)@),
                Outbound::Stop => !final(self)@.running,
            },
    {
        if !self.running {
            return Outbound::Stop;
        }
        match hub.dequeue(&self.subscription) {
            Dequeued::Message(message) => Outbound::Write(message),
            Dequeued::Empty => Outbound::Idle,
            Dequeued::Closed => {
                self.running = false;
                Outbound::Stop
            },
        }
    }

    /// A step of the outbound loop, after a write: a write that failed stops
    /// the session, and the loop goes on only while the session runs.
    pub fn on_write(&mut self, written: bool) -> (next: Directive)
        ensures
            final(self)@ == old(self)@.after_write(written),
            next == (if final(self)@.running {
                Directive::Continue
            } else {
                Directive::Stop
            }),
    {
        if !written {
            self.running = false;
        }
        if self.running {
            Directive::Continue
        } else {
            Directive::Stop
        }
    }

    /// Ends the session: its subscription leaves the hub, with what still
    /// waited for it. The other subscriptions keep their queues.
    pub fn close(self, hub: &mut FanoutHub)
        ensures
            final(hub)@ == old(hub)@.unsubscribe(self@.subscription),
            final(hub)@.wf(),
    {
        hub.unsubscribe(self.subscription);
    }
}

} // verus!
