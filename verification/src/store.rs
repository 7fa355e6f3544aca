//! The keyed store that owns every live notification.

use crate::notification::{Notification, NotificationView};
use std::collections::HashMap;
use vstd::std_specs::hash::spec_hash_map_iter;
use vstd::std_specs::iter::IteratorSpec;
use vstd::prelude::*;

verus! {

/// The id that follows `id` in the cycle 1, 2, ..., `u32::MAX`, 1, ...
/// Zero stands for "no id" and is never handed out.
pub open spec fn spec_successor(id: u32) -> u32 {
    if id == u32::MAX {
        1
    } else {
        (id + 1) as u32
    }
}

/// How many steps of [`successor`] lead from `from` to `to`, for a `to`
/// other than zero: between 1 and `u32::MAX`.
pub open spec fn distance(from: u32, to: u32) -> int {
    if to > from {
        to - from
    } else {
        to - from + u32::MAX
    }
}

/// The id that follows `id` in the cycle 1, 2, ..., `u32::MAX`, 1, ...
#[verifier::when_used_as_spec(spec_successor)]
pub fn successor(id: u32) -> (next: u32)
    ensures
        next == spec_successor(id),
        next != 0,
{
    if id == u32::MAX {
        1
    } else {
        id + 1
    }
}

/// One call on a store that lets its callers in one at a time: a call
/// that stores a new notification, or one that only reads.
pub enum Call {
    /// A new notification is stored.
    Notify(NotificationView),
    /// The record under an id is looked up.
    Get(u32),
    /// All records are copied.
    Snapshot,
}

/// The new notifications among `calls`, in their order.
pub open spec fn notifications_of(calls: Seq<Call>) -> Seq<NotificationView>
    decreases calls.len(),
{
    if calls.len() == 0 {
        Seq::empty()
    } else {
        match calls.last() {
            Call::Notify(notification) => notifications_of(calls.drop_last()).push(notification),
            _ => notifications_of(calls.drop_last()),
        }
    }
}

/// What a [`NotificationStore`] holds: the live records by id, and the id
/// it handed out last.
pub struct StoreView {
    pub records: Map<u32, NotificationView>,
    pub last_id: u32,
}

impl StoreView {
    /// A store that holds nothing and has handed out no id.
    pub open spec fn empty() -> StoreView {
        StoreView { records: Map::empty(), last_id: 0 }
    }

    /// Every record carries the id it is kept under.
    pub open spec fn well_formed(self) -> bool {
        forall|id: u32| #[trigger] self.records.contains_key(id) ==> self.records[id].id == id
    }

    /// The record kept under `id`, if there is one.
    pub open spec fn get(self, id: u32) -> Option<NotificationView> {
        if self.records.contains_key(id) {
            Some(self.records[id])
        } else {
            None
        }
    }

    /// The store after `notification` was put under `id`, in place of
    /// whatever was there.
    pub open spec fn insert(self, id: u32, notification: NotificationView) -> StoreView {
        StoreView { records: self.records.insert(id, notification.with_id(id)), ..self }
    }

    /// The store without the record under `id`.
    pub open spec fn remove(self, id: u32) -> StoreView {
        StoreView { records: self.records.remove(id), ..self }
    }

    /// The ids of the records that have expired at `now`.
    pub open spec fn expired(self, now: i64) -> Set<u32> {
        Set::new(|id: u32| self.records.contains_key(id) && self.records[id].expired_at(now as int))
    }

    /// The store without the records that have expired at `now`.
    pub open spec fn sweep(self, now: i64) -> StoreView {
        StoreView { records: self.records.remove_keys(self.expired(now)), ..self }
    }

    /// Whether `id` can be handed out: it is an id, and no live record
    /// has it.
    pub open spec fn is_free(self, id: u32) -> bool {
        id != 0 && !self.records.contains_key(id)
    }

    /// Whether every id is taken by a live record.
    pub open spec fn is_full(self) -> bool {
        forall|id: u32| id != 0 ==> #[trigger] self.records.contains_key(id)
    }

    /// Whether `id` is the one that the store hands out next: the free id
    /// that comes first after the last one handed out, going round the
    /// cycle of ids. A full store has no free id and goes on to the
    /// successor of the last one, whose record then gives way.
    pub open spec fn allocates(self, id: u32) -> bool {
        if self.is_full() {
            id == spec_successor(self.last_id)
        } else {
            &&& self.is_free(id)
            &&& forall|other: u32| #[trigger]
                self.is_free(other) ==> distance(self.last_id, id) <= distance(
                    self.last_id,
                    other,
                )
        }
    }

    /// The id that the store hands out next.
    pub open spec fn next_id(self) -> u32 {
        choose|id: u32| self.allocates(id)
    }

    /// The store after `notification` was put under the next id.
    pub open spec fn insert_new(self, notification: NotificationView) -> StoreView {
        let id = self.next_id();
        StoreView { records: self.records.insert(id, notification.with_id(id)), last_id: id }
    }

    /// The ids that can still be handed out.
    pub open spec fn free_ids(self) -> Set<u32> {
        Set::new(|id: u32| self.is_free(id))
    }

    /// The store after each of `notifications` was put under a new id, in
    /// order.
    pub open spec fn insert_all(self, notifications: Seq<NotificationView>) -> StoreView
        decreases notifications.len(),
    {
        if notifications.len() == 0 {
            self
        } else {
            self.insert_all(notifications.drop_last()).insert_new(notifications.last())
        }
    }

    /// The ids that `notifications` are given when each is put under a new
    /// id, in order.
    pub open spec fn ids_of(self, notifications: Seq<NotificationView>) -> Seq<u32>
        decreases notifications.len(),
    {
        if notifications.len() == 0 {
            Seq::empty()
        } else {
            self.ids_of(notifications.drop_last()).push(
                self.insert_all(notifications.drop_last()).next_id(),
            )
        }
    }

    /// The store after one call.
    pub open spec fn step(self, call: Call) -> StoreView {
        match call {
            Call::Notify(notification) => self.insert_new(notification),
            _ => self,
        }
    }

    /// The store after `calls`, one after the other.
    pub open spec fn run(self, calls: Seq<Call>) -> StoreView
        decreases calls.len(),
    {
        if calls.len() == 0 {
            self
        } else {
            self.run(calls.drop_last()).step(calls.last())
        }
    }

    /// The id under which a request that names `id` is stored: zero asks
    /// for a new one.
    pub open spec fn replace_id(self, id: u32) -> u32 {
        if id == 0 {
            self.next_id()
        } else {
            id
        }
    }

    /// The store after a request that names `id` was stored.
    pub open spec fn replace(self, id: u32, notification: NotificationView) -> StoreView {
        if id == 0 {
            self.insert_new(notification)
        } else {
            self.insert(id, notification)
        }
    }

    /// At most one id is the next one.
    pub proof fn lemma_allocation_unique(self, a: u32, b: u32)
        requires
            self.allocates(a),
            self.allocates(b),
        ensures
            a == b,
    {
    }

    /// If no free id lies nearer to the last id than `from`, some id is
    /// the next one.
    proof fn lemma_allocation_exists_from(self, from: int)
        requires
            1 <= from <= u32::MAX,
            !self.is_full(),
            forall|other: u32| #[trigger]
                self.is_free(other) ==> distance(self.last_id, other) >= from,
        ensures
            exists|id: u32| self.allocates(id),
        decreases u32::MAX - from,
    {
        let candidate: u32 = if self.last_id + from <= u32::MAX {
            (self.last_id + from) as u32
        } else {
            (self.last_id + from - u32::MAX) as u32
        };
        if self.is_free(candidate) {
            assert(self.allocates(candidate));
        } else {
            let free = choose|id: u32| id != 0 && !self.records.contains_key(id);
            assert(self.is_free(free));
            self.lemma_allocation_exists_from(from + 1);
        }
    }

    /// A request that was stored is what a lookup of its id finds next,
    /// whatever the id held before.
    pub proof fn lemma_replace_then_get(self, id: u32, notification: NotificationView)
        ensures
            self.replace(id, notification).get(self.replace_id(id)) == Some(
                notification.with_id(self.replace_id(id)),
            ),
    {
    }

    /// Removing an id that has no record changes nothing.
    pub proof fn lemma_remove_absent(self, id: u32)
        requires
            self.get(id) is None,
        ensures
            self.remove(id) == self,
    {
        assert(self.remove(id).records =~= self.records);
    }

    /// Once an id was removed it has no record, and removing it again
    /// changes nothing.
    pub proof fn lemma_remove_twice(self, id: u32)
        ensures
            self.remove(id).get(id) is None,
            self.remove(id).remove(id) == self.remove(id),
    {
        self.remove(id).lemma_remove_absent(id);
    }

    /// Storing, removing and sweeping keep every record under its own id.
    pub proof fn lemma_well_formed_is_kept(
        self,
        id: u32,
        notification: NotificationView,
        now: i64,
    )
        requires
            self.well_formed(),
        ensures
            self.insert(id, notification).well_formed(),
            self.insert_new(notification).well_formed(),
            self.replace(id, notification).well_formed(),
            self.remove(id).well_formed(),
            self.sweep(now).well_formed(),
    {
    }

    /// A sweep leaves no expired record behind, and every other record as
    /// it was.
    pub proof fn lemma_sweep(self, now: i64)
        ensures
            self.sweep(now).expired(now) == Set::<u32>::empty(),
            forall|id: u32|
                !self.expired(now).contains(id) ==> #[trigger] self.sweep(now).get(id) == self.get(
                    id,
                ),
    {
    }

    /// The free ids of a store are finitely many, and a store is full when
    /// there is none.
    pub proof fn lemma_free_ids(self)
        ensures
            self.free_ids().finite(),
            self.is_full() <==> self.free_ids().len() == 0,
    {
        broadcast use vstd::set_lib::full_set_properties;

        vstd::set_lib::lemma_set_subset_finite(Set::<u32>::full(), self.free_ids());
        if self.is_full() {
            assert(self.free_ids() =~= Set::<u32>::empty());
        } else {
            let free = choose|id: u32| id != 0 && !self.records.contains_key(id);
            assert(self.free_ids().contains(free));
        }
    }

    /// New notifications get ids that differ from each other and from
    /// those of the records that were there, as long as free ids are left
    /// for all of them. Afterwards the store holds each of them under its
    /// id, beside the records that were there, and nothing else.
    pub proof fn lemma_insert_all(self, notifications: Seq<NotificationView>)
        requires
            notifications.len() <= self.free_ids().len(),
        ensures
            self.ids_of(notifications).len() == notifications.len(),
            self.ids_of(notifications).no_duplicates(),
            forall|k: int|
                0 <= k < notifications.len() ==> {
                    let id = #[trigger] self.ids_of(notifications)[k];
                    &&& id != 0
                    &&& !self.records.contains_key(id)
                    &&& self.insert_all(notifications).records[id] == notifications[k].with_id(id)
                },
            self.insert_all(notifications).records.dom() == self.records.dom().union(
                self.ids_of(notifications).to_set(),
            ),
            forall|id: u32| #[trigger]
                self.records.contains_key(id) ==> self.insert_all(notifications).records[id]
                    == self.records[id],
            self.insert_all(notifications).free_ids().len() == self.free_ids().len()
                - notifications.len(),
            self.records.dom().finite() ==> self.insert_all(notifications).records.dom().finite()
                && self.insert_all(notifications).records.dom().len() == self.records.dom().len()
                + notifications.len(),
        decreases notifications.len(),
    {
        let ids = self.ids_of(notifications);
        let after = self.insert_all(notifications);
        if notifications.len() > 0 {
            let earlier = notifications.drop_last();
            let before = self.insert_all(earlier);
            let earlier_ids = self.ids_of(earlier);
            let id = before.next_id();
            self.lemma_insert_all(earlier);
            before.lemma_free_ids();
            before.lemma_next_id();
            earlier_ids.lemma_push_to_set_commute(id);
            assert(after.free_ids() =~= before.free_ids().remove(id));
        }
    }

    /// In a store that holds nothing every id is free.
    pub proof fn lemma_empty_has_every_id_free()
        ensures
            StoreView::empty().free_ids().finite(),
            StoreView::empty().free_ids().len() == u32::MAX,
    {
        vstd::set_lib::range_set_properties::<u32>(1, u32::MAX);
        assert(StoreView::empty().free_ids() =~= Set::<u32>::range_inclusive(1, u32::MAX));
    }

    /// However calls that store new notifications are mixed with calls
    /// that read, the store is what the new notifications alone make of
    /// it, in their order. This holds after every call of the run, so a
    /// reader in between finds whole records only.
    pub proof fn lemma_reads_change_nothing(self, calls: Seq<Call>)
        ensures
            self.run(calls) == self.insert_all(notifications_of(calls)),
        decreases calls.len(),
    {
        if calls.len() > 0 {
            self.lemma_reads_change_nothing(calls.drop_last());
            let earlier = notifications_of(calls.drop_last());
            match calls.last() {
                Call::Notify(notification) => {
                    assert(earlier.push(notification).drop_last() =~= earlier);
                },
                _ => {},
            }
        }
    }

    /// A store that held nothing holds, after a run of calls that store
    /// new notifications and calls that read, one record for each new
    /// notification: under an id of its own, with the values that were
    /// stored. The run may hold as many new notifications as there are
    /// ids.
    pub proof fn lemma_mixed_run_from_empty(calls: Seq<Call>)
        requires
            notifications_of(calls).len() <= u32::MAX,
        ensures
            ({
                let stored = notifications_of(calls);
                let ids = StoreView::empty().ids_of(stored);
                let after = StoreView::empty().run(calls);
                &&& ids.len() == stored.len()
                &&& ids.no_duplicates()
                &&& after.records.dom() == ids.to_set()
                &&& after.records.dom().len() == stored.len()
                &&& forall|k: int|
                    0 <= k < stored.len() ==> after.records[#[trigger] ids[k]]
                        == stored[k].with_id(ids[k])
            }),
    {
        let stored = notifications_of(calls);
        let ids = StoreView::empty().ids_of(stored);
        StoreView::lemma_empty_has_every_id_free();
        StoreView::empty().lemma_reads_change_nothing(calls);
        StoreView::empty().lemma_insert_all(stored);
        assert(StoreView::empty().records.dom() =~= Set::<u32>::empty());
        assert(Set::<u32>::empty().union(ids.to_set()) =~= ids.to_set());
    }

    /// A store always has a next id. Unless the store is full, it is an
    /// id that no live record has.
    pub proof fn lemma_next_id(self)
        ensures
            self.allocates(self.next_id()),
            self.next_id() != 0,
            !self.is_full() ==> !self.records.contains_key(self.next_id()),
    {
        if self.is_full() {
            assert(self.allocates(spec_successor(self.last_id)));
        } else {
            self.lemma_allocation_exists_from(1);
        }
    }
}

/// The records of a map, each as plain values.
pub open spec fn records_view(records: Map<u32, Notification>) -> Map<u32, NotificationView> {
    Map::new(|id: u32| records.contains_key(id), |id: u32| records[id]@)
}

/// Whether one of the first `upto` entries holds `id` with a record that has
/// expired at `now`.
spec fn expired_among(entries: Seq<(&u32, &Notification)>, upto: int, id: u32, now: i64) -> bool {
    exists|i: int|
        0 <= i < upto && *(#[trigger] entries[i]).0 == id && entries[i].1@.expired_at(now as int)
}

/// A key-value store for notifications, with the counter that names new
/// ones.
pub struct NotificationStore {
    records: HashMap<u32, Notification>,
    last_id: u32,
}

impl View for NotificationStore {
    type V = StoreView;

    closed spec fn view(&self) -> StoreView {
        StoreView { records: records_view(self.records@), last_id: self.last_id }
    }
}

impl NotificationStore {
    #[verifier::type_invariant]
    spec fn keyed_by_id(self) -> bool {
        forall|id: u32| #[trigger]
            self.records@.contains_key(id) ==> self.records@[id].id == id
    }

    /// An empty store.
    pub fn new() -> (store: NotificationStore)
        ensures
            store@ == StoreView::empty(),
            store@.well_formed(),
    {
        let store = NotificationStore { records: HashMap::new(), last_id: 0 };
        assert(store@.records =~= Map::empty());
        store
    }

    /// Puts `notification` under `id`, in place of the record that was
    /// there, and returns that record. The record is stored with `id` as
    /// its id.
    pub fn insert(&mut self, id: u32, notification: Notification) -> (previous: Option<
        Notification,
    >)
        ensures
            final(self)@ == old(self)@.insert(id, notification@),
            match previous {
                Some(record) => old(self)@.get(id) == Some(record@),
                None => old(self)@.get(id) is None,
            },
            final(self)@.well_formed(),
    {
        proof {
            use_type_invariant(&*self);
        }
        let mut record = notification;
        record.id = id;
        // The map is moved out while it changes: the invariant of the
        // store has to hold for as long as the store is borrowed.
        let mut records: HashMap<u32, Notification> = HashMap::new();
        std::mem::swap(&mut self.records, &mut records);
        let previous = records.insert(id, record);
        std::mem::swap(&mut self.records, &mut records);
        assert(self@.records =~= old(self)@.insert(id, notification@).records);
        previous
    }

    /// Stores `notification` under an id that no live record has, and
    /// returns that id. The ids are handed out in turn, from the one after
    /// the last, and wrap round to 1 after `u32::MAX`; ids of live records
    /// are passed over. Only a store in which every id is taken reuses the
    /// id of a live record, whose place the new one takes.
    pub fn insert_new(&mut self, notification: Notification) -> (id: u32)
        ensures
            id != 0,
            old(self)@.allocates(id),
            id == old(self)@.next_id(),
            final(self)@ == old(self)@.insert_new(notification@),
            !old(self)@.is_full() ==> old(self)@.get(id) is None,
            final(self)@.well_formed(),
    {
        proof {
            use_type_invariant(&*self);
        }
        let mut candidate: u32 = successor(self.last_id);
        let mut probes: u32 = 1;
        while probes < u32::MAX && self.records.contains_key(&candidate)
            invariant
                candidate != 0,
                probes == distance(self.last_id, candidate),
                forall|other: u32|
                    other != 0 && distance(self.last_id, other) < probes
                        ==> #[trigger] self.records@.contains_key(other),
                *self == *old(self),
            decreases u32::MAX - probes,
        {
            candidate = successor(candidate);
            probes = probes + 1;
        }
        let id: u32 = if self.records.contains_key(&candidate) {
            successor(self.last_id)
        } else {
            candidate
        };
        proof {
            if self.records@.contains_key(candidate) {
                assert forall|other: u32| other != 0 implies #[trigger] self@.records.contains_key(
                    other,
                ) by {
                    if distance(self.last_id, other) >= u32::MAX {
                        assert(other == candidate);
                    }
                }
                assert(self@.is_full());
            } else {
                assert(self@.is_free(candidate));
            }
            assert(self@.allocates(id));
            self@.lemma_allocation_unique(id, self@.next_id());
        }
        self.insert(id, notification);
        proof {
            use_type_invariant(&*self);
        }
        self.last_id = id;
        id
    }

    /// Stores `notification` as a request that names `id` asks: under a
    /// new id if `id` is zero, else under `id`, whether or not a record
    /// was there. Returns the id used.
    pub fn replace(&mut self, id: u32, notification: Notification) -> (used: u32)
        ensures
            used == old(self)@.replace_id(id),
            final(self)@ == old(self)@.replace(id, notification@),
            final(self)@.well_formed(),
    {
        if id == 0 {
            self.insert_new(notification)
        } else {
            self.insert(id, notification);
            id
        }
    }

    /// Takes the record under `id` out of the store and returns it; none
    /// if there is no such record, which is no error.
    pub fn remove(&mut self, id: u32) -> (removed: Option<Notification>)
        ensures
            final(self)@ == old(self)@.remove(id),
            match removed {
                Some(record) => old(self)@.get(id) == Some(record@),
                None => old(self)@.get(id) is None,
            },
            final(self)@.well_formed(),
    {
        proof {
            use_type_invariant(&*self);
        }
        let mut records: HashMap<u32, Notification> = HashMap::new();
        std::mem::swap(&mut self.records, &mut records);
        let removed = records.remove(&id);
        std::mem::swap(&mut self.records, &mut records);
        assert(self@.records =~= old(self)@.remove(id).records);
        removed
    }

    /// A copy of the record under `id`, if there is one.
    pub fn get(&self, id: u32) -> (found: Option<Notification>)
        ensures
            match found {
                Some(record) => self@.get(id) == Some(record@),
                None => self@.get(id) is None,
            },
            self@.well_formed(),
    {
        proof {
            use_type_invariant(self);
        }
        match self.records.get(&id) {
            Some(record) => Some(record.clone()),
            None => None,
        }
    }

    /// A copy of all live records, by id. It shares nothing with the
    /// store.
    pub fn to_map(&self) -> (snapshot: HashMap<u32, Notification>)
        ensures
            records_view(snapshot@) == self@.records,
            self@.well_formed(),
    {
        proof {
            use_type_invariant(self);
        }
        self.records.clone()
    }

    /// The ids of the records that have expired at `now`, each once and in
    /// no particular order. The records stay in the store.
    pub fn expired_ids(&self, now: i64) -> (ids: Vec<u32>)
        ensures
            ids@.no_duplicates(),
            ids@.to_set() == self@.expired(now),
            self@.well_formed(),
    {
        proof {
            use_type_invariant(self);
        }
        let mut ids: Vec<u32> = Vec::new();
        for entry in it: self.records.iter()
            invariant
                it.seq() == spec_hash_map_iter(&self.records).remaining(),
                it.seq().no_duplicates(),
                ids@.no_duplicates(),
                forall|j: int|
                    0 <= j < ids.len() ==> expired_among(it.seq(), it.index(), #[trigger] ids[j], now),
                forall|i: int|
                    0 <= i < it.index() && (#[trigger] it.seq()[i]).1@.expired_at(now as int)
                        ==> ids@.contains(*it.seq()[i].0),
        {
            let (id, record) = entry;
            let ghost at = it.index();
            let ghost before = ids@;
            if record.expired_at(now) {
                assert forall|j: int| 0 <= j < before.len() implies before[j] != *id by {
                    let seen = choose|i: int|
                        0 <= i < at && *(#[trigger] it.seq()[i]).0 == before[j];
                    assert(self.records@.contains_key(*it.seq()[seen].0));
                }
                ids.push(*id);
            }
            assert forall|i: int|
                0 <= i < at + 1 && (#[trigger] it.seq()[i]).1@.expired_at(
                    now as int,
                ) implies ids@.contains(*it.seq()[i].0) by {
                if i < at {
                    let j = before.index_of(*it.seq()[i].0);
                    assert(ids@[j] == *it.seq()[i].0);
                } else {
                    assert(ids@[before.len() as int] == *it.seq()[i].0);
                }
            }
        }
        ids
    }
}

} // verus!
