//! What a fan-out hub is, and the laws of its operations.

use crate::snapshot::Snapshot;
use vstd::prelude::*;

verus! {

/// What a hub is: its queue capacity, how many subscriptions it has ever
/// made, and, for each live subscription, the snapshots that wait for it,
/// oldest first.
#[verifier::ext_equal]
pub struct HubState {
    pub capacity: nat,
    pub issued: nat,
    pub queues: Map<u64, Seq<Snapshot>>,
}

/// A queue after `message` was offered to it: behind what waited where there
/// was room, dropped where the queue was full.
pub open spec fn offered(queue: Seq<Snapshot>, capacity: nat, message: Snapshot) -> Seq<Snapshot> {
    if queue.len() < capacity {
        queue.push(message)
    } else {
        queue
    }
}

impl HubState {
    /// The subscriptions are finitely many, each was made by this hub, and
    /// no queue holds more than the capacity.
    pub open spec fn wf(self) -> bool {
        &&& self.queues.dom().finite()
        &&& forall|id: u64| #[trigger]
            self.queues.dom().contains(id) ==> id < self.issued && self.queues[id].len()
                <= self.capacity
    }

    /// Whether the subscription `id` is live.
    pub open spec fn is_live(self, id: u64) -> bool {
        self.queues.dom().contains(id)
    }

    /// Whether the subscription `id` is live and its queue takes one more.
    pub open spec fn has_room(self, id: u64) -> bool {
        self.is_live(id) && self.queues[id].len() < self.capacity
    }

    /// The subscriptions whose queues take one more.
    pub open spec fn with_room(self) -> Set<u64> {
        Set::new(|id: u64| self.has_room(id))
    }

    /// The identifier of the next subscription.
    pub open spec fn next_id(self) -> u64 {
        self.issued as u64
    }

    /// The hub with one more subscription, whose queue is empty.
    pub open spec fn subscribe(self) -> HubState {
        HubState {
            capacity: self.capacity,
            issued: self.issued + 1,
            queues: self.queues.insert(self.next_id(), Seq::empty()),
        }
    }

    /// The hub without the subscription `id` and what waited for it.
    pub open spec fn unsubscribe(self, id: u64) -> HubState {
        HubState { capacity: self.capacity, issued: self.issued, queues: self.queues.remove(id) }
    }

    /// The hub after `message` was offered to every live subscription.
    pub open spec fn publish(self, message: Snapshot) -> HubState {
        HubState {
            capacity: self.capacity,
            issued: self.issued,
            queues: Map::new(
                |id: u64| self.is_live(id),
                |id: u64| offered(self.queues[id], self.capacity, message),
            ),
        }
    }

    /// The hub after `message` was offered to the subscription `id` alone.
    pub open spec fn send_to(self, id: u64, message: Snapshot) -> HubState {
        if self.is_live(id) {
            HubState {
                capacity: self.capacity,
                issued: self.issued,
                queues: self.queues.insert(id, offered(self.queues[id], self.capacity, message)),
            }
        } else {
            self
        }
    }

    /// The hub after the subscription `id` took its oldest snapshot.
    pub open spec fn take_first(self, id: u64) -> HubState {
        if self.is_live(id) && self.queues[id].len() > 0 {
            HubState {
                capacity: self.capacity,
                issued: self.issued,
                queues: self.queues.insert(id, self.queues[id].drop_first()),
            }
        } else {
            self
        }
    }
}

/// The hub after the subscription `id` took its `count` oldest snapshots,
/// one by one.
pub open spec fn take_many(hub: HubState, id: u64, count: nat) -> HubState
    decreases count,
{
    if count == 0 {
        hub
    } else {
        take_many(hub.take_first(id), id, (count - 1) as nat)
    }
}

/// The hub after each of `messages` was published, in turn.
pub open spec fn publish_all(hub: HubState, messages: Seq<Snapshot>) -> HubState
    decreases messages.len(),
{
    if messages.len() == 0 {
        hub
    } else {
        publish_all(hub, messages.drop_last()).publish(messages.last())
    }
}

/// Every operation keeps a well-formed hub well formed: whatever is
/// subscribed, published, sent, taken or unsubscribed, no queue ever holds
/// more than the capacity, and every live subscription is one that the hub
/// made.
pub proof fn law_operations_keep_well_formed(hub: HubState, id: u64, message: Snapshot)
    requires
        hub.wf(),
    ensures
        hub.issued < u64::MAX ==> hub.subscribe().wf(),
        hub.unsubscribe(id).wf(),
        hub.publish(message).wf(),
        hub.send_to(id, message).wf(),
        hub.take_first(id).wf(),
{
    assert(hub.publish(message).queues.dom() =~= hub.queues.dom());
    if hub.issued < u64::MAX {
        let grown = hub.subscribe();
        assert forall|other: u64| #[trigger]
            grown.queues.dom().contains(other) implies other < grown.issued
            && grown.queues[other].len() <= grown.capacity by {
            if other != hub.next_id() {
                assert(hub.queues.dom().contains(other));
            }
        }
    }
    let sent = hub.send_to(id, message);
    assert forall|other: u64| #[trigger] sent.queues.dom().contains(other) implies other
        < sent.issued && sent.queues[other].len() <= sent.capacity by {
        assert(hub.queues.dom().contains(other));
    }
    let taken = hub.take_first(id);
    assert forall|other: u64| #[trigger] taken.queues.dom().contains(other) implies other
        < taken.issued && taken.queues[other].len() <= taken.capacity by {
        assert(hub.queues.dom().contains(other));
    }
}

/// A published snapshot reaches every live subscription whose queue has
/// room, behind all that waited there; a subscription whose queue is full
/// misses it and keeps what it has. Either way the subscription stays live.
pub proof fn law_publish_reaches_queues_with_room(hub: HubState, message: Snapshot, id: u64)
    requires
        hub.is_live(id),
    ensures
        hub.publish(message).is_live(id),
        hub.has_room(id) ==> hub.publish(message).queues[id] == hub.queues[id].push(message),
        !hub.has_room(id) ==> hub.publish(message).queues[id] == hub.queues[id],
{
}

/// What a publish does to one subscription's queue depends on that queue
/// alone: the other subscriptions, and whether their queues are full, have
/// no part in it.
pub proof fn law_publish_is_per_subscription(
    first: HubState,
    second: HubState,
    message: Snapshot,
    id: u64,
)
    requires
        first.capacity == second.capacity,
        first.is_live(id),
        second.is_live(id),
        first.queues[id] == second.queues[id],
    ensures
        first.publish(message).queues[id] == second.publish(message).queues[id],
{
}

/// Taking snapshots one by one takes them oldest first.
proof fn lemma_take_many(hub: HubState, id: u64, count: nat)
    requires
        hub.is_live(id),
        count <= hub.queues[id].len(),
    ensures
        take_many(hub, id, count).is_live(id),
        take_many(hub, id, count).queues[id] == hub.queues[id].skip(count as int),
    decreases count,
{
    if count == 0 {
        assert(hub.queues[id].skip(0) =~= hub.queues[id]);
    } else {
        let next = hub.take_first(id);
        lemma_take_many(next, id, (count - 1) as nat);
        assert(next.queues[id].skip(count - 1) =~= hub.queues[id].skip(count as int));
    }
}

/// A subscription whose queue had room when a snapshot was published takes
/// that snapshot from its queue once it has taken all that waited before it.
pub proof fn law_published_snapshot_is_taken_in_turn(hub: HubState, message: Snapshot, id: u64)
    requires
        hub.has_room(id),
    ensures
        take_many(hub.publish(message), id, hub.queues[id].len()).is_live(id),
        take_many(hub.publish(message), id, hub.queues[id].len()).queues[id] == seq![message],
{
    let after = hub.publish(message);
    lemma_take_many(after, id, hub.queues[id].len());
    assert(after.queues[id].skip(hub.queues[id].len() as int) =~= seq![message]);
}

/// Snapshots reach a subscription in the order in which they were published:
/// a queue with room for all of them holds them behind what waited, first
/// published first.
pub proof fn law_publish_keeps_order(hub: HubState, messages: Seq<Snapshot>, id: u64)
    requires
        hub.is_live(id),
        hub.queues[id].len() + messages.len() <= hub.capacity,
    ensures
        publish_all(hub, messages).is_live(id),
        publish_all(hub, messages).capacity == hub.capacity,
        publish_all(hub, messages).queues[id] == hub.queues[id] + messages,
    decreases messages.len(),
{
    if messages.len() == 0 {
        assert(hub.queues[id] + messages =~= hub.queues[id]);
    } else {
        law_publish_keeps_order(hub, messages.drop_last(), id);
        assert((hub.queues[id] + messages.drop_last()).push(messages.last()) =~= hub.queues[id]
            + messages);
    }
}

/// A subscription made after a snapshot was published does not find that
/// snapshot in its queue: the queue of a new subscription is empty, and the
/// subscription is none of those that were live before.
pub proof fn law_new_subscription_starts_empty(hub: HubState, message: Snapshot)
    requires
        hub.wf(),
        hub.issued < u64::MAX,
    ensures
        !hub.publish(message).is_live(hub.publish(message).next_id()),
        hub.publish(message).subscribe().is_live(hub.publish(message).next_id()),
        hub.publish(message).subscribe().queues[hub.publish(message).next_id()]
            == Seq::<Snapshot>::empty(),
{
    let published = hub.publish(message);
    if published.is_live(published.next_id()) {
        assert(hub.queues.dom().contains(published.next_id()));
    }
}

/// Publishing after a subscription has left reaches the others as if it had
/// never been there: each of them stays live, keeps its queue, and takes
/// what is published in the same order.
pub proof fn law_unsubscribed_is_not_missed(
    hub: HubState,
    gone: u64,
    other: u64,
    message: Snapshot,
)
    requires
        hub.is_live(other),
        other != gone,
    ensures
        !hub.unsubscribe(gone).is_live(gone),
        hub.unsubscribe(gone).is_live(other),
        hub.unsubscribe(gone).queues[other] == hub.queues[other],
        hub.unsubscribe(gone).publish(message).queues[other] == hub.publish(message).queues[other],
{
}

} // verus!
