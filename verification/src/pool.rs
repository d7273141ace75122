//! The table of a connection pool: one slot per remote address.
//!
//! A slot is either being connected, with the callers that wait for the
//! connection, or ready, with the established connection and its HTTP/3
//! session. A caller that finds a ready, open connection reuses it; one that
//! finds a connection being made waits for it; any other starts connecting
//! and makes the slot a connecting one, so that one address has at most one
//! connection attempt in flight.
use std::sync::Arc;
use vstd::laws_eq::obeys_concrete_eq;
use vstd::prelude::*;

use crate::outside::share;
use crate::transport::{reports_closed, QuicConnection};

verus! {

/// An established QUIC connection together with its HTTP/3 session.
#[derive(Clone, Debug)]
pub struct PoolEntry<S> {
    pub quic: QuicConnection,
    pub h3: S,
}

/// The slot of one remote address, whose established connection is an
/// entry `E`.
pub enum Slot<E, W> {
    /// A connection is being made; these callers wait for it.
    Connecting(Vec<W>),
    /// The connection is established.
    Ready(Arc<E>),
}

/// A slot as a value: the waiting callers, or the entry.
pub enum SlotView<E, W> {
    Connecting(Seq<W>),
    Ready(E),
}

pub open spec fn slot_view<E, W>(s: Slot<E, W>) -> SlotView<E, W> {
    match s {
        Slot::Connecting(ws) => SlotView::Connecting(ws@),
        Slot::Ready(e) => SlotView::Ready(*e),
    }
}

/// What a caller that asks the pool for a connection does.
pub enum Lookup<E> {
    /// Use this established connection.
    Reuse(Arc<E>),
    /// Wait for the connection that is being made.
    Wait,
    /// Make the connection; the caller is the first to wait for it.
    Connect,
}

/// What asking for the connection to `key`, as a caller that waits on
/// `waiter`, returns and makes of the slots `before`, where `open` tells
/// whether a ready connection of `key` is still open: an open ready
/// connection is reused with the slots unchanged; a connection being made
/// gets `waiter` as its last waiting caller; with no slot, or one whose
/// connection has closed, the caller connects and the slot holds `waiter`
/// alone.
pub open spec fn lookup_outcome_given<K, E, W>(
    before: Map<K, SlotView<E, W>>,
    key: K,
    waiter: W,
    open: bool,
    r: Lookup<E>,
    after: Map<K, SlotView<E, W>>,
) -> bool {
    match before.get(key) {
        None => r is Connect && after == before.insert(key, SlotView::Connecting(seq![waiter])),
        Some(SlotView::Connecting(ws)) => r is Wait && after == before.insert(
            key,
            SlotView::Connecting(ws.push(waiter)),
        ),
        Some(SlotView::Ready(e)) => if open {
            r matches Lookup::Reuse(a) && *a == e && after == before
        } else {
            r is Connect && after == before.insert(key, SlotView::Connecting(seq![waiter]))
        },
    }
}

/// The same, whether the ready connection turned out open or closed.
pub open spec fn lookup_outcome<K, E, W>(
    before: Map<K, SlotView<E, W>>,
    key: K,
    waiter: W,
    r: Lookup<E>,
    after: Map<K, SlotView<E, W>>,
) -> bool {
    lookup_outcome_given(before, key, waiter, true, r, after) || lookup_outcome_given(
        before,
        key,
        waiter,
        false,
        r,
        after,
    )
}

/// What dropping the slot of `key` when its ready connection has closed
/// makes of the slots `before`, where `closed` tells whether that
/// connection has closed: only a ready slot whose connection has closed is
/// dropped.
pub open spec fn invalidate_outcome_given<K, E, W>(
    before: Map<K, SlotView<E, W>>,
    key: K,
    closed: bool,
    after: Map<K, SlotView<E, W>>,
) -> bool {
    match before.get(key) {
        Some(SlotView::Ready(_)) => after == if closed {
            before.remove(key)
        } else {
            before
        },
        _ => after == before,
    }
}

/// What ending the connection attempt for `key` with `entry` hands back and
/// makes of the slots `before`: a connecting slot hands back its waiting
/// callers and becomes ready with the entry, or is dropped without one; a
/// ready slot is dropped and nobody is handed back.
pub open spec fn complete_outcome<K, E, W>(
    before: Map<K, SlotView<E, W>>,
    key: K,
    entry: Option<Arc<E>>,
    handed: Seq<W>,
    after: Map<K, SlotView<E, W>>,
) -> bool {
    match before.get(key) {
        Some(SlotView::Connecting(ws)) => handed == ws && after == match entry {
            Some(e) => before.insert(key, SlotView::Ready(*e)),
            None => before.remove(key),
        },
        Some(SlotView::Ready(_)) => handed.len() == 0 && after == before.remove(key),
        None => handed.len() == 0 && after == before,
    }
}

/// What asking for the connection to `key` as a caller that waits on
/// `waiter` returns and makes of the slots `before`, where a ready
/// connection of `key` was asked whether it has closed: the outcome for
/// the answer it gave, an open connection being reused.
pub open spec fn lookup_outcome_reported<K, S, W>(
    before: Map<K, SlotView<PoolEntry<S>, W>>,
    key: K,
    waiter: W,
    r: Lookup<PoolEntry<S>>,
    after: Map<K, SlotView<PoolEntry<S>, W>>,
) -> bool {
    match before.get(key) {
        Some(SlotView::Ready(e)) => exists|closed: bool|
            #[trigger] reports_closed(e.quic, closed) && lookup_outcome_given(before, key, waiter, !closed, r, after),
        _ => lookup_outcome_given(before, key, waiter, false, r, after),
    }
}

/// What invalidating the slot of `key` makes of the slots `before`, where
/// a ready connection of `key` was asked whether it has closed: the slot is
/// dropped exactly when it is ready and its connection answered that it
/// has closed.
pub open spec fn invalidate_outcome_reported<K, S, W>(
    before: Map<K, SlotView<PoolEntry<S>, W>>,
    key: K,
    after: Map<K, SlotView<PoolEntry<S>, W>>,
) -> bool {
    match before.get(key) {
        Some(SlotView::Ready(e)) => exists|closed: bool|
            #[trigger] reports_closed(e.quic, closed) && invalidate_outcome_given(before, key, closed, after),
        _ => after == before,
    }
}

pub open spec fn keys_distinct<K, V>(s: Seq<(K, V)>) -> bool {
    forall|i: int, j: int| 0 <= i < s.len() && 0 <= j < s.len() && i != j ==> s[i].0 != s[j].0
}

pub open spec fn has_key<K, V>(s: Seq<(K, V)>, k: K) -> bool {
    exists|i: int| 0 <= i < s.len() && s[i].0 == k
}

/// The slots of a list of keyed slots, as a map.
pub open spec fn map_of<K, E, W>(s: Seq<(K, Slot<E, W>)>) -> Map<K, SlotView<E, W>> {
    Map::new(
        |k: K| has_key(s, k),
        |k: K| slot_view(s[choose|i: int| 0 <= i < s.len() && s[i].0 == k].1),
    )
}

proof fn lemma_map_of_at<K, E, W>(s: Seq<(K, Slot<E, W>)>, i: int)
    requires
        keys_distinct(s),
        0 <= i < s.len(),
    ensures
        map_of(s).dom().contains(s[i].0),
        map_of(s)[s[i].0] == slot_view(s[i].1),
{
    let k = s[i].0;
    assert(has_key(s, k));
    let j = choose|j: int| 0 <= j < s.len() && s[j].0 == k;
    assert(j == i);
}

proof fn lemma_map_of_absent<K, E, W>(s: Seq<(K, Slot<E, W>)>, k: K)
    requires
        !has_key(s, k),
    ensures
        !map_of(s).dom().contains(k),
{
}

proof fn lemma_map_of_update<K, E, W>(s: Seq<(K, Slot<E, W>)>, i: int, v: Slot<E, W>)
    requires
        keys_distinct(s),
        0 <= i < s.len(),
    ensures
        keys_distinct(s.update(i, (s[i].0, v))),
        map_of(s.update(i, (s[i].0, v))) =~= map_of(s).insert(s[i].0, slot_view(v)),
{
    let t = s.update(i, (s[i].0, v));
    let k0 = s[i].0;
    assert forall|k: K| #[trigger] map_of(t).dom().contains(k) <==> map_of(s).insert(k0, slot_view(v)).dom().contains(k) by {
        if has_key(s, k) {
            let j = choose|j: int| 0 <= j < s.len() && s[j].0 == k;
            assert(t[j].0 == k);
        }
        if has_key(t, k) {
            let j = choose|j: int| 0 <= j < t.len() && t[j].0 == k;
            assert(s[j].0 == k);
        }
    }
    assert forall|k: K| #[trigger] map_of(t).dom().contains(k) implies map_of(t)[k] == map_of(s).insert(k0, slot_view(v))[k] by {
        let j = choose|j: int| 0 <= j < t.len() && t[j].0 == k;
        lemma_map_of_at(t, j);
        if j != i {
            lemma_map_of_at(s, j);
        }
    }
}

proof fn lemma_map_of_push<K, E, W>(s: Seq<(K, Slot<E, W>)>, k0: K, v: Slot<E, W>)
    requires
        keys_distinct(s),
        !has_key(s, k0),
    ensures
        keys_distinct(s.push((k0, v))),
        map_of(s.push((k0, v))) =~= map_of(s).insert(k0, slot_view(v)),
{
    let t = s.push((k0, v));
    assert forall|k: K| #[trigger] map_of(t).dom().contains(k) <==> map_of(s).insert(k0, slot_view(v)).dom().contains(k) by {
        if has_key(s, k) {
            let j = choose|j: int| 0 <= j < s.len() && s[j].0 == k;
            assert(t[j].0 == k);
        }
        if k == k0 {
            assert(t[s.len() as int].0 == k);
        }
        if has_key(t, k) && k != k0 {
            let j = choose|j: int| 0 <= j < t.len() && t[j].0 == k;
            assert(s[j].0 == k);
        }
    }
    assert forall|k: K| #[trigger] map_of(t).dom().contains(k) implies map_of(t)[k] == map_of(s).insert(k0, slot_view(v))[k] by {
        let j = choose|j: int| 0 <= j < t.len() && t[j].0 == k;
        lemma_map_of_at(t, j);
        if j < s.len() {
            lemma_map_of_at(s, j);
        }
    }
}

proof fn lemma_map_of_remove<K, E, W>(s: Seq<(K, Slot<E, W>)>, i: int)
    requires
        keys_distinct(s),
        0 <= i < s.len(),
    ensures
        keys_distinct(s.remove(i)),
        map_of(s.remove(i)) =~= map_of(s).remove(s[i].0),
{
    let t = s.remove(i);
    let k0 = s[i].0;
    assert forall|a: int, b: int| 0 <= a < t.len() && 0 <= b < t.len() && a != b implies t[a].0 != t[b].0 by {
        let a2 = if a < i { a } else { a + 1 };
        let b2 = if b < i { b } else { b + 1 };
        assert(t[a] == s[a2]);
        assert(t[b] == s[b2]);
    }
    assert forall|k: K| #[trigger] map_of(t).dom().contains(k) <==> map_of(s).remove(k0).dom().contains(k) by {
        if has_key(s, k) && k != k0 {
            let j = choose|j: int| 0 <= j < s.len() && s[j].0 == k;
            let j2 = if j < i { j } else { j - 1 };
            assert(t[j2] == s[j]);
        }
        if has_key(t, k) {
            let j = choose|j: int| 0 <= j < t.len() && t[j].0 == k;
            let j2 = if j < i { j } else { j + 1 };
            assert(s[j2] == t[j]);
        }
    }
    assert forall|k: K| #[trigger] map_of(t).dom().contains(k) implies map_of(t)[k] == map_of(s).remove(k0)[k] by {
        let j = choose|j: int| 0 <= j < t.len() && t[j].0 == k;
        let j2 = if j < i { j } else { j + 1 };
        assert(s[j2] == t[j]);
        lemma_map_of_at(t, j);
        lemma_map_of_at(s, j2);
    }
}

/// Whether `r` is the same outcome as `outcome`: the same entry, or an
/// error with the same text.
pub open spec fn same_outcome<E>(r: Result<Arc<E>, String>, outcome: Result<Arc<E>, String>) -> bool {
    match outcome {
        Ok(e) => r matches Ok(a) && a == e,
        Err(t) => r matches Err(u) && u@ == t@,
    }
}

/// The callers that waited for a connection attempt, each with the outcome
/// to tell it: every one gets the same outcome, the established entry or
/// the text of the attempt's error, in the order they came.
pub fn hand_out<E, W>(waiters: Vec<W>, outcome: &Result<Arc<E>, String>) -> (r: Vec<(W, Result<Arc<E>, String>)>)
    ensures
        r@.len() == waiters@.len(),
        forall|i: int| 0 <= i < r@.len() ==> #[trigger] r@[i].0 == waiters@[i] && same_outcome(r@[i].1, *outcome),
{
    let mut rest = waiters;
    let mut r: Vec<(W, Result<Arc<E>, String>)> = Vec::new();
    let ghost all = waiters@;
    while rest.len() > 0
        invariant
            r@.len() + rest@.len() == all.len(),
            rest@ == all.subrange(r@.len() as int, all.len() as int),
            forall|i: int| 0 <= i < r@.len() ==> #[trigger] r@[i].0 == all[i] && same_outcome(r@[i].1, *outcome),
        decreases rest@.len(),
    {
        let w = rest.remove(0);
        let told = match outcome {
            Ok(e) => Ok(share(e)),
            Err(t) => Err(t.clone()),
        };
        assert(w == all[r@.len() as int]);
        assert(same_outcome(told, *outcome));
        r.push((w, told));
        assert(rest@ =~= all.subrange(r@.len() as int, all.len() as int));
    }
    r
}

/// The slots of a connection pool, keyed by remote address.
pub struct ConnectionTable<K, E, W> {
    slots: Vec<(K, Slot<E, W>)>,
}

impl<K, E, W> ConnectionTable<K, E, W> {
    /// No address has two slots.
    #[verifier::type_invariant]
    spec fn wf(self) -> bool {
        keys_distinct(self.slots@)
    }
}

impl<K: PartialEq, E, W> ConnectionTable<K, E, W> {
    /// The slot of each address that has one.
    pub closed spec fn view(&self) -> Map<K, SlotView<E, W>> {
        map_of(self.slots@)
    }

    /// A table with no slot.
    pub fn new() -> (r: Self)
        ensures
            r.view() == Map::<K, SlotView<E, W>>::empty(),
    {
        let r = ConnectionTable { slots: Vec::new() };
        assert(r.view() =~= Map::<K, SlotView<E, W>>::empty());
        r
    }

    /// The index of the slot of `key`, if it has one.
    fn find(&self, key: &K) -> (r: Option<usize>)
        requires
            obeys_concrete_eq::<K>(),
        ensures
            match r {
                Some(i) => i < self.slots@.len() && self.slots@[i as int].0 == *key,
                None => !has_key(self.slots@, *key),
            },
    {
        proof { reveal(obeys_concrete_eq); }
        let mut i: usize = 0;
        while i < self.slots.len()
            invariant
                obeys_concrete_eq::<K>(),
                i <= self.slots@.len(),
                forall|j: int| 0 <= j < i ==> self.slots@[j].0 != *key,
            decreases self.slots@.len() - i,
        {
            proof { reveal(obeys_concrete_eq); }
            if self.slots[i].0 == *key {
                return Some(i);
            }
            i = i + 1;
        }
        None
    }

    /// Puts `slot` at index `i`, where the slot of the same key was.
    fn replace(&mut self, i: usize, slot: Slot<E, W>) -> (old_slot: Slot<E, W>)
        requires
            i < old(self).slots@.len(),
        ensures
            old_slot == old(self).slots@[i as int].1,
            final(self).slots@ == old(self).slots@.update(i as int, (old(self).slots@[i as int].0, slot)),
            final(self).view() == old(self).view().insert(old(self).slots@[i as int].0, slot_view(slot)),
    {
        proof { use_type_invariant(&*self); }
        let ghost s = self.slots@;
        let mut slots = Vec::new();
        std::mem::swap(&mut slots, &mut self.slots);
        let (k, old_slot) = slots.remove(i);
        proof {
            assert(slots@.insert(i as int, (k, slot)) =~= s.update(i as int, (s[i as int].0, slot)));
            lemma_map_of_update(s, i as int, slot);
        }
        slots.insert(i, (k, slot));
        self.slots = slots;
        old_slot
    }

    /// The established entry of `key`, when its slot is a ready one.
    pub fn ready(&self, key: &K) -> (r: Option<Arc<E>>)
        requires
            obeys_concrete_eq::<K>(),
        ensures
            match self.view().get(*key) {
                Some(SlotView::Ready(e)) => r matches Some(a) && *a == e,
                _ => r is None,
            },
    {
        proof { use_type_invariant(self); }
        match self.find(key) {
            None => {
                proof { lemma_map_of_absent(self.slots@, *key); }
                None
            },
            Some(i) => {
                proof { lemma_map_of_at(self.slots@, i as int); }
                match &self.slots[i].1 {
                    Slot::Ready(entry) => Some(share(entry)),
                    Slot::Connecting(_) => None,
                }
            },
        }
    }

    /// The lookup of a connection, told whether a ready connection of
    /// `key` is still open.
    pub fn lookup_given(&mut self, key: K, waiter: W, open: bool) -> (r: Lookup<E>)
        requires
            obeys_concrete_eq::<K>(),
        ensures
            lookup_outcome_given(old(self).view(), key, waiter, open, r, final(self).view()),
    {
        proof { use_type_invariant(&*self); }
        match self.find(&key) {
            None => {
                proof { lemma_map_of_absent(self.slots@, key); }
                let mut waiters = Vec::new();
                waiters.push(waiter);
                proof {
                    assert(waiters@ =~= seq![waiter]);
                    lemma_map_of_push(self.slots@, key, Slot::Connecting(waiters));
                }
                let mut slots = Vec::new();
                std::mem::swap(&mut slots, &mut self.slots);
                slots.push((key, Slot::Connecting(waiters)));
                self.slots = slots;
                Lookup::Connect
            },
            Some(i) => {
                proof { lemma_map_of_at(self.slots@, i as int); }
                let reused = match &self.slots[i].1 {
                    Slot::Ready(entry) => if open {
                        Some(share(entry))
                    } else {
                        None
                    },
                    Slot::Connecting(_) => None,
                };
                if let Some(entry) = reused {
                    return Lookup::Reuse(entry);
                }
                let connecting = match &self.slots[i].1 {
                    Slot::Connecting(_) => true,
                    Slot::Ready(_) => false,
                };
                if connecting {
                    let previous = self.replace(i, Slot::Connecting(Vec::new()));
                    match previous {
                        Slot::Connecting(mut ws) => {
                            ws.push(waiter);
                            let _ = self.replace(i, Slot::Connecting(ws));
                            assert(self.view() =~= old(self).view().insert(key, SlotView::Connecting(ws@)));
                            Lookup::Wait
                        },
                        Slot::Ready(_) => {
                            proof { assert(false); }
                            Lookup::Connect
                        },
                    }
                } else {
                    let mut fresh = Vec::new();
                    fresh.push(waiter);
                    proof { assert(fresh@ =~= seq![waiter]); }
                    let _ = self.replace(i, Slot::Connecting(fresh));
                    Lookup::Connect
                }
            },
        }
    }

    /// Takes out the slot at index `i`.
    fn take(&mut self, i: usize) -> (taken: (K, Slot<E, W>))
        requires
            i < old(self).slots@.len(),
        ensures
            taken == old(self).slots@[i as int],
            final(self).view() == old(self).view().remove(old(self).slots@[i as int].0),
    {
        proof {
            use_type_invariant(&*self);
            lemma_map_of_remove(self.slots@, i as int);
        }
        let mut slots = Vec::new();
        std::mem::swap(&mut slots, &mut self.slots);
        let taken = slots.remove(i);
        self.slots = slots;
        taken
    }

    /// The connection attempt for `key` is over, with the established entry
    /// or without one.
    ///
    /// The slot of `key` is taken out. When it was a connecting one, it is
    /// put back ready with the entry, if there is one, and its waiting
    /// callers are handed back, in the order they came, to be told the
    /// outcome; otherwise no caller is handed back.
    pub fn complete(&mut self, key: &K, entry: Option<Arc<E>>) -> (r: Vec<W>)
        requires
            obeys_concrete_eq::<K>(),
        ensures
            complete_outcome(old(self).view(), *key, entry, r@, final(self).view()),
    {
        proof { use_type_invariant(&*self); }
        match self.find(key) {
            None => {
                proof { lemma_map_of_absent(self.slots@, *key); }
                Vec::new()
            },
            Some(i) => {
                proof { lemma_map_of_at(self.slots@, i as int); }
                let connecting = match &self.slots[i].1 {
                    Slot::Connecting(_) => true,
                    Slot::Ready(_) => false,
                };
                if !connecting {
                    let _ = self.take(i);
                    return Vec::new();
                }
                let previous = match entry {
                    Some(e) => self.replace(i, Slot::Ready(e)),
                    None => self.take(i).1,
                };
                match previous {
                    Slot::Connecting(ws) => ws,
                    Slot::Ready(_) => {
                        proof { assert(false); }
                        Vec::new()
                    },
                }
            },
        }
    }

    /// The invalidation of a slot, told whether a ready connection of
    /// `key` has closed.
    pub fn invalidate_given(&mut self, key: &K, closed: bool)
        requires
            obeys_concrete_eq::<K>(),
        ensures
            invalidate_outcome_given(old(self).view(), *key, closed, final(self).view()),
    {
        proof { use_type_invariant(&*self); }
        match self.find(key) {
            None => {
                proof { lemma_map_of_absent(self.slots@, *key); }
            },
            Some(i) => {
                proof { lemma_map_of_at(self.slots@, i as int); }
                let ready = match &self.slots[i].1 {
                    Slot::Ready(_) => true,
                    Slot::Connecting(_) => false,
                };
                if ready && closed {
                    let _ = self.take(i);
                }
            },
        }
    }
}

impl<K: PartialEq, S, W> ConnectionTable<K, PoolEntry<S>, W> {
    /// Asks the pool for the connection to `key`, as a caller that will
    /// wait on `waiter` if it must.
    ///
    /// An open ready connection is reused and the table is left as it was.
    /// A connection being made gets `waiter` as one more waiting caller.
    /// With no slot, or a ready connection that has closed, the caller is to
    /// connect and the slot becomes a connecting one with `waiter` alone.
    /// Whether a ready connection is still open is asked of the connection.
    pub fn lookup(&mut self, key: K, waiter: W) -> (r: Lookup<PoolEntry<S>>)
        requires
            obeys_concrete_eq::<K>(),
        ensures
            lookup_outcome(old(self).view(), key, waiter, r, final(self).view()),
            lookup_outcome_reported(old(self).view(), key, waiter, r, final(self).view()),
    {
        let ask = QuicConnection::is_closed;
        let open = match self.ready(&key) {
            Some(entry) => {
                let closed = ask(&entry.quic);
                assert(reports_closed(entry.quic, closed));
                !closed
            },
            None => false,
        };
        self.lookup_given(key, waiter, open)
    }

    /// Drops the slot of `key` when it holds a ready connection that has
    /// closed. Connecting slots are never dropped here. Whether the
    /// connection has closed is asked of the connection.
    pub fn invalidate(&mut self, key: &K)
        requires
            obeys_concrete_eq::<K>(),
        ensures
            invalidate_outcome_given(old(self).view(), *key, true, final(self).view())
                || invalidate_outcome_given(old(self).view(), *key, false, final(self).view()),
            invalidate_outcome_reported(old(self).view(), *key, final(self).view()),
    {
        let ask = QuicConnection::is_closed;
        let closed = match self.ready(key) {
            Some(entry) => {
                let closed = ask(&entry.quic);
                assert(reports_closed(entry.quic, closed));
                closed
            },
            None => false,
        };
        self.invalidate_given(key, closed);
    }
}

} // verus!
