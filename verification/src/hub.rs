//! The fan-out hub: delivers each published snapshot to the queue of every
//! live subscription.
//!
//! Each subscription has a queue of its own, bounded by the hub's capacity.
//! A queue that is full when a snapshot is published does not take it: the
//! snapshot is dropped for that subscription alone, and publishing never
//! waits for a slow subscriber.

use crate::hub_state::{offered, HubState};
use crate::snapshot::{ScoreData, Snapshot};
use std::collections::VecDeque;
use vstd::prelude::*;

verus! {

/// The queue capacity of a hub made without one: a hundred snapshots.
pub const DEFAULT_CAPACITY: usize = 100;

/// A live registration with a hub.
#[derive(Debug, PartialEq, Eq)]
pub struct Subscription {
    id: u64,
}

/// What a subscription finds when it looks for its next snapshot.
#[derive(Debug, PartialEq, Eq)]
pub enum Dequeued {
    /// The oldest snapshot that was waiting.
    Message(ScoreData),
    /// Nothing is waiting.
    Empty,
    /// The subscription has ended.
    Closed,
}

/// One subscription's entry in the hub.
struct Subscriber {
    id: u64,
    queue: VecDeque<ScoreData>,
}

/// A fan-out hub. It owns the live subscriptions and the queue of each.
pub struct FanoutHub {
    capacity: usize,
    issued: u64,
    subscribers: Vec<Subscriber>,
}

impl View for Subscription {
    type V = u64;

    closed spec fn view(&self) -> u64 {
        self.id
    }
}

/// What waits in a queue.
spec fn waiting(queue: Seq<ScoreData>) -> Seq<Snapshot> {
    Seq::new(queue.len(), |i: int| queue[i]@)
}

/// Whether `id` is among the entries.
spec fn listed(entries: Seq<Subscriber>, id: u64) -> bool {
    exists|i: int| 0 <= i < entries.len() && (#[trigger] entries[i]).id == id
}

/// Where `id` stands among the entries.
spec fn position(entries: Seq<Subscriber>, id: u64) -> int {
    choose|i: int| 0 <= i < entries.len() && (#[trigger] entries[i]).id == id
}

/// No identifier stands twice among the entries.
spec fn distinct(entries: Seq<Subscriber>) -> bool {
    forall|i: int, j: int|
        0 <= i < j < entries.len() ==> (#[trigger] entries[i]).id != (#[trigger] entries[j]).id
}

/// The queues of the entries, by identifier.
spec fn queues_of(entries: Seq<Subscriber>) -> Map<u64, Seq<Snapshot>> {
    Map::new(
        |id: u64| listed(entries, id),
        |id: u64| waiting(entries[position(entries, id)].queue@),
    )
}

/// The identifiers, among the entries, of those whose queues take one more.
spec fn roomy(entries: Seq<Subscriber>, capacity: nat) -> Set<u64> {
    Set::new(
        |id: u64|
            exists|i: int|
                0 <= i < entries.len() && (#[trigger] entries[i]).id == id
                    && entries[i].queue@.len() < capacity,
    )
}

/// What holds of the parts of a hub.
spec fn coherent(capacity: usize, issued: u64, entries: Seq<Subscriber>) -> bool {
    &&& distinct(entries)
    &&& forall|i: int|
        0 <= i < entries.len() ==> (#[trigger] entries[i]).id < issued && entries[i].queue@.len()
            <= capacity
}

impl View for FanoutHub {
    type V = HubState;

    closed spec fn view(&self) -> HubState {
        HubState {
            capacity: self.capacity as nat,
            issued: self.issued as nat,
            queues: queues_of(self.subscribers@),
        }
    }
}

impl Subscription {
    /// The number by which the hub knows this subscription.
    pub fn id(&self) -> (id: u64)
        ensures
            id == self@,
    {
        self.id
    }
}

impl FanoutHub {
    #[verifier::type_invariant]
    spec fn inv(self) -> bool {
        coherent(self.capacity, self.issued, self.subscribers@)
    }

    /// A hub without subscriptions, whose queues hold up to `capacity`
    /// snapshots each.
    pub fn new(capacity: usize) -> (hub: Self)
        ensures
            hub@.wf(),
            hub@.capacity == capacity,
            hub@.issued == 0,
            hub@.queues == Map::<u64, Seq<Snapshot>>::empty(),
    {
        let hub = FanoutHub { capacity, issued: 0, subscribers: Vec::new() };
        proof {
            lemma_coherent_wf(capacity, 0, hub.subscribers@);
            assert(hub@.queues =~= Map::<u64, Seq<Snapshot>>::empty());
        }
        hub
    }

    /// The number of snapshots that each queue holds at most.
    pub fn capacity(&self) -> (capacity: usize)
        ensures
            capacity == self@.capacity,
    {
        self.capacity
    }

    /// Whether the hub can make one more subscription: it can until it has
    /// made as many as a `u64` counts.
    pub fn can_subscribe(&self) -> (possible: bool)
        ensures
            possible == (self@.issued < u64::MAX),
    {
        self.issued < u64::MAX
    }

    /// Where the subscription `id` stands, if it is live.
    fn find(&self, id: u64) -> (found: Option<usize>)
        ensures
            self@.wf(),
            match found {
                Some(i) => i < self.subscribers.len() && self.subscribers[i as int].id == id
                    && self@.is_live(id) && position(self.subscribers@, id) == i,
                None => !self@.is_live(id),
            },
    {
        proof {
            use_type_invariant(self);
            lemma_coherent_wf(self.capacity, self.issued, self.subscribers@);
        }
        let count: usize = self.subscribers.len();
        let mut i: usize = 0;
        while i < count
            invariant
                count == self.subscribers.len(),
                i <= count,
                forall|k: int| 0 <= k < i ==> (#[trigger] self.subscribers[k]).id != id,
                distinct(self.subscribers@),
                self@.wf(),
            decreases count - i,
        {
            if self.subscribers[i].id == id {
                proof {
                    lemma_position(self.subscribers@, i as int);
                }
                return Some(i);
            }
            i = i + 1;
        }
        None
    }

    /// Whether `subscription` is live in this hub.
    pub fn is_subscribed(&self, subscription: &Subscription) -> (live: bool)
        ensures
            live == self@.is_live(subscription@),
    {
        self.find(subscription.id).is_some()
    }

    /// The number of live subscriptions.
    pub fn subscriber_count(&self) -> (count: usize)
        ensures
            count == self@.queues.dom().len(),
    {
        proof {
            use_type_invariant(self);
            lemma_count(self.subscribers@);
        }
        self.subscribers.len()
    }

    /// Registers a new subscriber. Its queue is empty: it receives what is
    /// published from now on, nothing of what was published before.
    pub fn subscribe(&mut self) -> (subscription: Subscription)
        requires
            old(self)@.issued < u64::MAX,
        ensures
            subscription@ == old(self)@.next_id(),
            !old(self)@.is_live(subscription@),
            final(self)@ == old(self)@.subscribe(),
            final(self)@.wf(),
    {
        proof {
            use_type_invariant(&*self);
        }
        let id: u64 = self.issued;
        let mut entries: Vec<Subscriber> = Vec::new();
        std::mem::swap(&mut self.subscribers, &mut entries);
        let ghost before = entries@;
        entries.push(Subscriber { id, queue: VecDeque::new() });
        proof {
            assert(!listed(before, id)) by {
                if listed(before, id) {
                    let k = position(before, id);
                    assert(before[k].id < id);
                }
            }
            assert forall|other: u64| listed(entries@, other) <==> (listed(before, other) || other
                == id) by {
                if listed(entries@, other) {
                    let k = position(entries@, other);
                    if k < before.len() {
                        assert(before[k].id == other);
                    }
                }
                if listed(before, other) {
                    let k = position(before, other);
                    assert(entries@[k].id == other);
                }
                if other == id {
                    assert(entries@[before.len() as int].id == other);
                }
            }
            assert(distinct(entries@));
            assert forall|other: u64| listed(before, other) implies #[trigger] queues_of(
                entries@,
            )[other] == queues_of(before)[other] by {
                let k = position(before, other);
                assert(entries@[k].id == other);
                lemma_position(entries@, k);
            }
            lemma_position(entries@, before.len() as int);
            assert(waiting(entries@[before.len() as int].queue@) =~= Seq::<Snapshot>::empty());
            assert(queues_of(entries@) =~= queues_of(before).insert(id, Seq::empty()));
            lemma_coherent_wf(self.capacity, (id + 1) as u64, entries@);
        }
        self.issued = id + 1;
        self.subscribers = entries;
        Subscription { id }
    }

    /// Removes a subscription, with what still waited for it. Later
    /// publishes no longer reach it; the other subscriptions keep their
    /// queues as they are. A subscription that has ended already is let go
    /// without effect.
    pub fn unsubscribe(&mut self, subscription: Subscription)
        ensures
            final(self)@ == old(self)@.unsubscribe(subscription@),
            final(self)@.wf(),
    {
        proof {
            use_type_invariant(&*self);
        }
        match self.find(subscription.id) {
            Some(i) => {
                let mut entries: Vec<Subscriber> = Vec::new();
                std::mem::swap(&mut self.subscribers, &mut entries);
                let ghost before = entries@;
                let _ = entries.remove(i);
                proof {
                    lemma_entry_removed(before, i as int);
                    lemma_coherent_wf(self.capacity, self.issued, entries@);
                }
                self.subscribers = entries;
            },
            None => {
                assert(self@.queues.remove(subscription@) =~= self@.queues);
            },
        }
    }

    /// Offers `message` to every live subscription, and says how many took
    /// it: at most one copy each. A subscription whose queue is full does
    /// not take it and keeps what it has; every other one finds it behind
    /// what already waited. Publishing never fails and never waits.
    pub fn publish(&mut self, message: &ScoreData) -> (delivered: usize)
        ensures
            final(self)@ == old(self)@.publish(message@),
            final(self)@.wf(),
            old(self)@.with_room().finite(),
            delivered == old(self)@.with_room().len(),
            delivered <= old(self)@.queues.dom().len(),
    {
        proof {
            use_type_invariant(&*self);
        }
        let capacity: usize = self.capacity;
        let ghost issued = self.issued;
        let ghost state = self@;
        let mut entries: Vec<Subscriber> = Vec::new();
        std::mem::swap(&mut self.subscribers, &mut entries);
        let ghost before = entries@;
        let count: usize = entries.len();
        let mut delivered: usize = 0;
        let mut i: usize = 0;
        proof {
            assert(roomy(before.take(0), capacity as nat) =~= Set::<u64>::empty());
        }
        while i < count
            invariant
                count == entries.len(),
                count == before.len(),
                i <= count,
                delivered <= i,
                coherent(capacity, issued, before),
                forall|k: int| 0 <= k < count ==> (#[trigger] entries[k]).id == before[k].id,
                forall|k: int|
                    0 <= k < i ==> waiting((#[trigger] entries[k]).queue@) == offered(
                        waiting(before[k].queue@),
                        capacity as nat,
                        message@,
                    ),
                forall|k: int| i <= k < count ==> (#[trigger] entries[k]).queue@ == before[k].queue@,
                forall|k: int| 0 <= k < count ==> (#[trigger] entries[k]).queue@.len() <= capacity,
                roomy(before.take(i as int), capacity as nat).finite(),
                delivered == roomy(before.take(i as int), capacity as nat).len(),
            decreases count - i,
        {
            let ghost queue = entries[i as int].queue@;
            if entries[i].queue.len() < capacity {
                entries[i].queue.push_back(message.clone());
                delivered = delivered + 1;
                assert(waiting(entries[i as int].queue@) =~= waiting(queue).push(message@));
            }
            proof {
                lemma_roomy_step(before, capacity as nat, i as int);
            }
            i = i + 1;
        }
        proof {
            assert(before.take(count as int) =~= before);
            lemma_count(before);
            lemma_roomy_is_with_room(before, state);
            lemma_same_ids(before, entries@);
            assert forall|id: u64| listed(before, id) implies #[trigger] queues_of(entries@)[id]
                == offered(queues_of(before)[id], capacity as nat, message@) by {
                let k = position(before, id);
                assert(before[k].id == id);
            }
            assert(queues_of(entries@) =~= state.publish(message@).queues);
            lemma_coherent_wf(capacity, issued, entries@);
        }
        self.subscribers = entries;
        delivered
    }

    /// Offers `message` to one subscription alone, and says whether it took
    /// it. It does not where its queue is full or it has ended; the hub is
    /// then as before.
    pub fn send_to(&mut self, subscription: &Subscription, message: ScoreData) -> (taken: bool)
        ensures
            final(self)@ == old(self)@.send_to(subscription@, message@),
            final(self)@.wf(),
            taken == old(self)@.has_room(subscription@),
    {
        proof {
            use_type_invariant(&*self);
        }
        let ghost state = self@;
        match self.find(subscription.id) {
            Some(i) => {
                let capacity: usize = self.capacity;
                let mut entries: Vec<Subscriber> = Vec::new();
                std::mem::swap(&mut self.subscribers, &mut entries);
                let ghost before = entries@;
                let taken = entries[i].queue.len() < capacity;
                if taken {
                    entries[i].queue.push_back(message);
                    assert(waiting(entries[i as int].queue@) =~= waiting(before[i as int].queue@).push(
                        message@,
                    ));
                }
                proof {
                    lemma_position(before, i as int);
                    lemma_one_queue_changed(before, entries@, i as int);
                    lemma_coherent_wf(capacity, self.issued, entries@);
                }
                self.subscribers = entries;
                taken
            },
            None => false,
        }
    }

    /// Takes the oldest snapshot that waits for `subscription`: snapshots
    /// leave a queue in the order in which they entered it.
    pub fn dequeue(&mut self, subscription: &Subscription) -> (next: Dequeued)
        ensures
            final(self)@ == old(self)@.take_first(subscription@),
            final(self)@.wf(),
            match next {
                Dequeued::Message(message) => old(self)@.is_live(subscription@) && old(
                    self,
                )@.queues[subscription@].len() > 0 && message@ == old(
                    self,
                )@.queues[subscription@].first(),
                Dequeued::Empty => old(self)@.is_live(subscription@) && old(
                    self,
                )@.queues[subscription@].len() == 0,
                Dequeued::Closed => !old(self)@.is_live(subscription@),
            },
    {
        proof {
            use_type_invariant(&*self);
        }
        match self.find(subscription.id) {
            Some(i) => {
                let mut entries: Vec<Subscriber> = Vec::new();
                std::mem::swap(&mut self.subscribers, &mut entries);
                let ghost before = entries@;
                let first = entries[i].queue.pop_front();
                proof {
                    lemma_position(before, i as int);
                    lemma_one_queue_changed(before, entries@, i as int);
                    lemma_coherent_wf(self.capacity, self.issued, entries@);
                    if first is Some {
                        assert(waiting(entries@[i as int].queue@) =~= waiting(
                            before[i as int].queue@,
                        ).drop_first());
                    } else {
                        assert(queues_of(entries@) =~= queues_of(before));
                    }
                }
                self.subscribers = entries;
                match first {
                    Some(message) => Dequeued::Message(message),
                    None => Dequeued::Empty,
                }
            },
            None => Dequeued::Closed,
        }
    }
}

/// An entry is found at its own place.
proof fn lemma_position(entries: Seq<Subscriber>, i: int)
    requires
        distinct(entries),
        0 <= i < entries.len(),
    ensures
        listed(entries, entries[i].id),
        position(entries, entries[i].id) == i,
{
    let found = position(entries, entries[i].id);
    assert(0 <= found < entries.len() && entries[found].id == entries[i].id);
    if found < i {
        assert(entries[found].id != entries[i].id);
    } else if i < found {
        assert(entries[i].id != entries[found].id);
    }
}

/// Entries with the identifiers of others, place by place, list the same
/// identifiers at the same places.
proof fn lemma_same_ids(before: Seq<Subscriber>, after: Seq<Subscriber>)
    requires
        distinct(before),
        after.len() == before.len(),
        forall|k: int| 0 <= k < before.len() ==> (#[trigger] after[k]).id == before[k].id,
    ensures
        distinct(after),
        forall|id: u64| listed(after, id) == listed(before, id),
        forall|id: u64| listed(before, id) ==> position(after, id) == position(before, id),
{
    assert forall|a: int, b: int| 0 <= a < b < after.len() implies (#[trigger] after[a]).id != (
    #[trigger] after[b]).id by {
        assert(before[a].id != before[b].id);
    }
    assert forall|id: u64| listed(after, id) == listed(before, id) by {
        if listed(after, id) {
            let k = position(after, id);
            assert(before[k].id == id);
        }
        if listed(before, id) {
            let k = position(before, id);
            assert(after[k].id == id);
        }
    }
    assert forall|id: u64| listed(before, id) implies position(after, id) == position(
        before,
        id,
    ) by {
        let k = position(before, id);
        assert(after[k].id == id);
        lemma_position(after, k);
    }
}

/// Entries that differ from others in one queue alone have the queues of the
/// others, but for that one.
proof fn lemma_one_queue_changed(before: Seq<Subscriber>, after: Seq<Subscriber>, i: int)
    requires
        distinct(before),
        0 <= i < before.len(),
        after.len() == before.len(),
        forall|k: int| 0 <= k < before.len() ==> (#[trigger] after[k]).id == before[k].id,
        forall|k: int|
            0 <= k < before.len() && k != i ==> (#[trigger] after[k]).queue@ == before[k].queue@,
    ensures
        distinct(after),
        queues_of(after) == queues_of(before).insert(before[i].id, waiting(after[i].queue@)),
{
    lemma_same_ids(before, after);
    assert forall|id: u64| listed(before, id) implies #[trigger] queues_of(after)[id] == (if id
        == before[i].id {
        waiting(after[i].queue@)
    } else {
        queues_of(before)[id]
    }) by {
        let k = position(before, id);
        assert(before[k].id == id);
        lemma_position(before, k);
        lemma_position(after, k);
        if k == i {
        } else {
            lemma_position(before, i);
        }
    }
    lemma_position(before, i);
    assert(queues_of(after) =~= queues_of(before).insert(before[i].id, waiting(after[i].queue@)));
}

/// Entries without one of them have the queues of the others.
proof fn lemma_entry_removed(before: Seq<Subscriber>, i: int)
    requires
        distinct(before),
        0 <= i < before.len(),
    ensures
        distinct(before.remove(i)),
        queues_of(before.remove(i)) == queues_of(before).remove(before[i].id),
{
    let after = before.remove(i);
    let gone = before[i].id;
    assert forall|a: int, b: int| 0 <= a < b < after.len() implies (#[trigger] after[a]).id != (
    #[trigger] after[b]).id by {
        let a0 = if a < i {
            a
        } else {
            a + 1
        };
        let b0 = if b < i {
            b
        } else {
            b + 1
        };
        assert(before[a0].id != before[b0].id);
    }
    assert forall|id: u64| listed(after, id) == (listed(before, id) && id != gone) by {
        if listed(after, id) {
            let k = position(after, id);
            let k0 = if k < i {
                k
            } else {
                k + 1
            };
            assert(before[k0].id == id);
            if k0 < i {
                assert(before[k0].id != before[i].id);
            } else {
                assert(before[i].id != before[k0].id);
            }
        }
        if listed(before, id) && id != gone {
            let k = position(before, id);
            let k1 = if k < i {
                k
            } else {
                k - 1
            };
            assert(after[k1].id == id);
        }
    }
    assert forall|id: u64| listed(after, id) implies #[trigger] queues_of(after)[id] == queues_of(
        before,
    )[id] by {
        let k = position(after, id);
        let k0 = if k < i {
            k
        } else {
            k + 1
        };
        assert(before[k0].id == id);
        lemma_position(before, k0);
    }
    assert(queues_of(after) =~= queues_of(before).remove(gone));
}

/// The identifiers of the entries are finitely many.
proof fn lemma_listed_finite(entries: Seq<Subscriber>)
    ensures
        queues_of(entries).dom().finite(),
    decreases entries.len(),
{
    if entries.len() == 0 {
        assert(queues_of(entries).dom() =~= Set::<u64>::empty());
    } else {
        let rest = entries.drop_last();
        lemma_listed_finite(rest);
        let last = entries.last();
        assert forall|id: u64| listed(entries, id) <==> (listed(rest, id) || id == last.id) by {
            if listed(entries, id) {
                let i = position(entries, id);
                if i < entries.len() - 1 {
                    assert(rest[i].id == id);
                }
            }
            if listed(rest, id) {
                let i = position(rest, id);
                assert(entries[i].id == id);
            }
            if id == last.id {
                assert(entries[entries.len() - 1].id == id);
            }
        }
        assert(queues_of(entries).dom() =~= queues_of(rest).dom().insert(last.id));
    }
}

/// As many identifiers are listed as there are entries, when none stands
/// twice.
proof fn lemma_count(entries: Seq<Subscriber>)
    requires
        distinct(entries),
    ensures
        queues_of(entries).dom().finite(),
        queues_of(entries).dom().len() == entries.len(),
    decreases entries.len(),
{
    lemma_listed_finite(entries);
    if entries.len() == 0 {
        assert(queues_of(entries).dom() =~= Set::<u64>::empty());
    } else {
        let rest = entries.drop_last();
        let last = entries.last();
        assert(distinct(rest)) by {
            assert forall|i: int, j: int| 0 <= i < j < rest.len() implies (#[trigger] rest[i]).id
                != (#[trigger] rest[j]).id by {
                assert(entries[i].id != entries[j].id);
            }
        }
        lemma_count(rest);
        assert(!listed(rest, last.id)) by {
            if listed(rest, last.id) {
                let k = position(rest, last.id);
                assert(entries[k].id != entries[entries.len() - 1].id);
            }
        }
        assert forall|id: u64| listed(entries, id) <==> (listed(rest, id) || id == last.id) by {
            if listed(entries, id) {
                let i = position(entries, id);
                if i < entries.len() - 1 {
                    assert(rest[i].id == id);
                }
            }
            if listed(rest, id) {
                let i = position(rest, id);
                assert(entries[i].id == id);
            }
            if id == last.id {
                assert(entries[entries.len() - 1].id == id);
            }
        }
        assert(queues_of(entries).dom() =~= queues_of(rest).dom().insert(last.id));
    }
}

/// A hub whose parts cohere is well formed.
proof fn lemma_coherent_wf(capacity: usize, issued: u64, entries: Seq<Subscriber>)
    requires
        coherent(capacity, issued, entries),
    ensures
        (HubState {
            capacity: capacity as nat,
            issued: issued as nat,
            queues: queues_of(entries),
        }).wf(),
{
    lemma_listed_finite(entries);
    let queues = queues_of(entries);
    assert forall|id: u64| #[trigger] queues.dom().contains(id) implies id < issued
        && queues[id].len() <= capacity by {
        let k = position(entries, id);
        assert(entries[k].id == id);
    }
}

/// Counting the entries with room one by one counts the identifiers with
/// room.
proof fn lemma_roomy_step(entries: Seq<Subscriber>, capacity: nat, i: int)
    requires
        distinct(entries),
        0 <= i < entries.len(),
    ensures
        roomy(entries.take(i), capacity).finite() ==> roomy(entries.take(i + 1), capacity).finite(),
        roomy(entries.take(i), capacity).finite() ==> roomy(entries.take(i + 1), capacity).len()
            == roomy(entries.take(i), capacity).len() + (if entries[i].queue@.len() < capacity {
            1nat
        } else {
            0nat
        }),
{
    let before = entries.take(i);
    let after = entries.take(i + 1);
    let id = entries[i].id;
    assert(!roomy(before, capacity).contains(id)) by {
        if roomy(before, capacity).contains(id) {
            let k = choose|k: int|
                0 <= k < before.len() && (#[trigger] before[k]).id == id && before[k].queue@.len()
                    < capacity;
            assert(entries[k].id != entries[i].id);
        }
    }
    assert forall|other: u64|
        roomy(after, capacity).contains(other) <==> (roomy(before, capacity).contains(other) || (
        other == id && entries[i].queue@.len() < capacity)) by {
        if roomy(after, capacity).contains(other) {
            let k = choose|k: int|
                0 <= k < after.len() && (#[trigger] after[k]).id == other && after[k].queue@.len()
                    < capacity;
            if k < i {
                assert(before[k].id == other && before[k].queue@.len() < capacity);
            }
        }
        if roomy(before, capacity).contains(other) {
            let k = choose|k: int|
                0 <= k < before.len() && (#[trigger] before[k]).id == other
                    && before[k].queue@.len() < capacity;
            assert(after[k].id == other && after[k].queue@.len() < capacity);
        }
        if other == id && entries[i].queue@.len() < capacity {
            assert(after[i].id == other && after[i].queue@.len() < capacity);
        }
    }
    if entries[i].queue@.len() < capacity {
        assert(roomy(after, capacity) =~= roomy(before, capacity).insert(id));
    } else {
        assert(roomy(after, capacity) =~= roomy(before, capacity));
    }
}

/// The entries with room are the subscriptions with room.
proof fn lemma_roomy_is_with_room(entries: Seq<Subscriber>, state: HubState)
    requires
        distinct(entries),
        state.queues == queues_of(entries),
    ensures
        roomy(entries, state.capacity) == state.with_room(),
{
    assert forall|id: u64| roomy(entries, state.capacity).contains(id) <==> state.has_room(id) by {
        if roomy(entries, state.capacity).contains(id) {
            let k = choose|k: int|
                0 <= k < entries.len() && (#[trigger] entries[k]).id == id
                    && entries[k].queue@.len() < state.capacity;
            lemma_position(entries, k);
        }
        if state.has_room(id) {
            let k = position(entries, id);
            assert(entries[k].id == id);
        }
    }
    assert(roomy(entries, state.capacity) =~= state.with_room());
}

} // verus!
