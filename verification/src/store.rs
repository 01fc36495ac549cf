use core::hash::Hash;
use vstd::hash_map::HashMapWithView;
use vstd::prelude::*;
use vstd::std_specs::hash::obeys_key_model;

verus! {

/// Declares tokio's task handle type, so an entry can own the handle of its
/// scheduled expiration task. The handle is opaque here: the store only
/// carries it and asks for its cancellation.
#[verifier::external_type_specification]
#[verifier::external_body]
#[verifier::reject_recursive_types(T)]
pub struct ExJoinHandle<T>(tokio::task::JoinHandle<T>);

/// Declares tokio's task error type: it occurs in the handle's own trait
/// impls and must be known, though nothing here reads it.
#[verifier::external_type_specification]
#[verifier::external_body]
pub struct ExJoinError(tokio::task::JoinError);

/// A cancellable expiration timer: the handle of one scheduled removal task,
/// tagged with the identity the store reserved for it. The identity is what
/// the conditional removal re-checks, so a timer that was superseded can
/// never delete the entry that replaced its own.
pub struct Timer {
    id: u64,
    task: tokio::task::JoinHandle<()>,
}

impl Timer {
    /// The identity this timer carries.
    pub closed spec fn spec_id(self) -> u64 {
        self.id
    }

    pub fn new(id: u64, task: tokio::task::JoinHandle<()>) -> (t: Timer)
        ensures
            t.spec_id() == id,
    {
        Timer { id, task }
    }

    /// Relies on `tokio::task::JoinHandle::abort`: requests cancellation of
    /// the scheduled task. Cancelling a task that already ran, or is already
    /// running, has no effect on the store's state, because the task's own
    /// removal is conditional on its timer identity.
    #[verifier::external_body]
    fn abort(&self) {
        self.task.abort()
    }
}

/// One stored entry: the value and, if the entry has a lifetime, the timer
/// of its scheduled removal. At most one timer exists per entry.
struct Entry<V> {
    value: V,
    timer: Option<Timer>,
}

impl<V> Entry<V> {
    spec fn spec_timer_id(self) -> Option<u64> {
        match self.timer {
            Some(t) => Some(t.spec_id()),
            None => None,
        }
    }

    /// Cancels the entry's expiration task, if it has one, and hands back
    /// the value. Every path that displaces an entry goes through here, so
    /// no displaced entry leaves a live timer behind.
    fn abort_expiration(self) -> (v: V)
        ensures
            v == self.value,
    {
        let Entry { value, timer } = self;
        match timer {
            Some(t) => t.abort(),
            None => (),
        }
        value
    }
}

/// The timer identity an optional timer carries.
pub open spec fn timer_id_of(timer: Option<Timer>) -> Option<u64> {
    match timer {
        Some(t) => Some(t.spec_id()),
        None => None,
    }
}

/// The store's state: a keyed map of entries, guarded by the caller (one
/// writer or many readers at a time), plus the counter that hands out fresh
/// timer identities.
///
/// Two views describe it in contracts: `self@` maps each key to its stored
/// value, and `self.timer_ids()` maps each key to the identity of its live
/// timer, if it has one.
#[verifier::reject_recursive_types(K)]
#[verifier::reject_recursive_types(V)]
pub struct Store<K, V> where K: View + Eq + Hash {
    map: HashMapWithView<K, Entry<V>>,
    next_id: u64,
}

impl<K: View + Eq + Hash, Val> View for Store<K, Val> {
    type V = Map<<K as View>::V, Val>;

    closed spec fn view(&self) -> Map<<K as View>::V, Val> {
        self.map@.map_values(|e: Entry<Val>| e.value)
    }
}

impl<K: View + Eq + Hash, V> Store<K, V> {
    /// The identity of the live timer stored for each key: `Some` for an
    /// entry inserted with a lifetime whose timer has neither fired nor been
    /// cancelled-and-dropped, `None` for an entry without one.
    pub closed spec fn timer_ids(self) -> Map<<K as View>::V, Option<u64>> {
        self.map@.map_values(|e: Entry<V>| e.spec_timer_id())
    }

    /// The identity the next reservation hands out.
    pub closed spec fn next_timer_id(self) -> u64 {
        self.next_id
    }

    /// Well-formedness: every live timer carries an identity that was handed
    /// out before, so a fresh reservation can never collide with one.
    pub open spec fn wf(self) -> bool {
        forall|k: <K as View>::V| #[trigger] self.timer_ids().contains_key(k)
            ==> (self.timer_ids()[k] matches Some(i) ==> i < self.next_timer_id())
    }

    /// Creates an empty store. Nothing is allocated until the first insert.
    pub fn new() -> (s: Self)
        requires
            obeys_key_model::<K>(),
            forall|k1: K, k2: K| k1@ == k2@ ==> k1 == k2,
        ensures
            s@ == Map::<<K as View>::V, V>::empty(),
            s.timer_ids() == Map::<<K as View>::V, Option<u64>>::empty(),
            s.next_timer_id() == 0,
            s.wf(),
    {
        let s = Store { map: HashMapWithView::new(), next_id: 0 };
        proof {
            assert(s@ =~= Map::<<K as View>::V, V>::empty());
            assert(s.timer_ids() =~= Map::<<K as View>::V, Option<u64>>::empty());
        }
        s
    }

    /// Returns a copy of the value stored for the key, if the key is
    /// present; `None` otherwise. Never observes or changes timer state.
    pub fn get(&self, k: &K) -> (r: Option<V>) where V: Clone
        ensures
            r matches Some(v) ==> self@.contains_key(k@) && cloned(self@[k@], v),
            r is None ==> !self@.contains_key(k@),
    {
        match self.map.get(k) {
            Some(e) => Some(e.value.clone()),
            None => None,
        }
    }

    /// Returns whether the store holds an entry for the key.
    pub fn contains_key(&self, k: &K) -> (r: bool)
        ensures
            r == self@.contains_key(k@),
    {
        self.map.contains_key(k)
    }

    /// Returns the number of entries.
    pub fn len(&self) -> (n: usize)
        ensures
            n == self@.len(),
    {
        proof {
            assert(self@.dom() =~= self.map@.dom());
        }
        self.map.len()
    }

    /// Reserves a fresh timer identity: one that no timer carried before and
    /// that no live timer can carry until a timer is built from it. Returns
    /// `None` only once every identity has been handed out.
    pub fn reserve_timer_id(&mut self) -> (r: Option<u64>)
        ensures
            old(self).next_timer_id() < u64::MAX ==> r == Some(old(self).next_timer_id())
                && final(self).next_timer_id() == old(self).next_timer_id() + 1,
            old(self).next_timer_id() == u64::MAX ==> r is None && *final(self) == *old(self),
            final(self)@ == old(self)@,
            final(self).timer_ids() == old(self).timer_ids(),
            old(self).wf() ==> final(self).wf(),
    {
        if self.next_id < u64::MAX {
            let id: u64 = self.next_id;
            self.next_id = self.next_id + 1;
            Some(id)
        } else {
            None
        }
    }

    /// Inserts an entry, replacing and handing back whatever the key held
    /// before. The displaced entry's timer, if any, is cancelled before the
    /// entry is dropped, and the new entry's timer identity (or its absence)
    /// becomes the one the key's conditional removal is checked against.
    pub fn insert_with_expiration(&mut self, k: K, v: V, timer: Option<Timer>) -> (prev: Option<
        V,
    >)
        requires
            timer matches Some(t) ==> t.spec_id() < old(self).next_timer_id(),
        ensures
            final(self)@ == old(self)@.insert(k@, v),
            final(self).timer_ids() == old(self).timer_ids().insert(k@, timer_id_of(timer)),
            prev matches Some(p) ==> old(self)@.contains_key(k@) && p == old(self)@[k@],
            prev is None ==> !old(self)@.contains_key(k@),
            final(self).next_timer_id() == old(self).next_timer_id(),
            old(self).wf() ==> final(self).wf(),
    {
        let ghost tid = timer_id_of(timer);
        let prev = self.map.remove(&k);
        self.map.insert(k, Entry { value: v, timer });
        proof {
            assert(self@ =~= old(self)@.insert(k@, v));
            assert(self.timer_ids() =~= old(self).timer_ids().insert(k@, tid));
        }
        match prev {
            Some(e) => Some(e.abort_expiration()),
            None => None,
        }
    }

    /// Inserts an entry with no lifetime: it stays until removed or
    /// replaced. Returns the value the key held before, after cancelling
    /// that entry's timer.
    pub fn insert(&mut self, k: K, v: V) -> (prev: Option<V>)
        ensures
            final(self)@ == old(self)@.insert(k@, v),
            final(self).timer_ids() == old(self).timer_ids().insert(k@, Option::<u64>::None),
            prev matches Some(p) ==> old(self)@.contains_key(k@) && p == old(self)@[k@],
            prev is None ==> !old(self)@.contains_key(k@),
            final(self).next_timer_id() == old(self).next_timer_id(),
            old(self).wf() ==> final(self).wf(),
    {
        self.insert_with_expiration(k, v, None)
    }

    /// Inserts an entry together with the timer of its scheduled removal.
    /// The caller reserves the timer's identity here first, schedules the
    /// removal task for the chosen lifetime, and hands its handle in; the
    /// task itself must call `expire` with the same key and identity.
    /// Returns the value the key held before, after cancelling that entry's
    /// timer.
    pub fn insert_with_lifetime(&mut self, k: K, v: V, timer: Timer) -> (prev: Option<V>)
        requires
            timer.spec_id() < old(self).next_timer_id(),
        ensures
            final(self)@ == old(self)@.insert(k@, v),
            final(self).timer_ids() == old(self).timer_ids().insert(k@, Some(timer.spec_id())),
            prev matches Some(p) ==> old(self)@.contains_key(k@) && p == old(self)@[k@],
            prev is None ==> !old(self)@.contains_key(k@),
            final(self).next_timer_id() == old(self).next_timer_id(),
            old(self).wf() ==> final(self).wf(),
    {
        self.insert_with_expiration(k, v, Some(timer))
    }

    /// Removes the key's entry, if it has one, cancels that entry's timer,
    /// and returns the removed value.
    pub fn remove(&mut self, k: &K) -> (r: Option<V>)
        ensures
            final(self)@ == old(self)@.remove(k@),
            final(self).timer_ids() == old(self).timer_ids().remove(k@),
            r matches Some(v) ==> old(self)@.contains_key(k@) && v == old(self)@[k@],
            r is None ==> !old(self)@.contains_key(k@),
            final(self).next_timer_id() == old(self).next_timer_id(),
            old(self).wf() ==> final(self).wf(),
    {
        let removed = self.map.remove(k);
        proof {
            assert(self@ =~= old(self)@.remove(k@));
            assert(self.timer_ids() =~= old(self).timer_ids().remove(k@));
        }
        match removed {
            Some(e) => Some(e.abort_expiration()),
            None => None,
        }
    }

    /// The conditional removal an expiration task performs when it wakes:
    /// the entry is removed only if the key still holds the very entry this
    /// timer was created for, witnessed by the timer identity. A timer whose
    /// entry was removed or replaced in the meantime finds a mismatch and
    /// changes nothing, however late its cancellation request was.
    pub fn expire(&mut self, k: &K, id: u64) -> (r: Option<V>)
        ensures
            old(self).timer_ids().contains_key(k@) && old(self).timer_ids()[k@] == Some(id) ==> {
                &&& final(self)@ == old(self)@.remove(k@)
                &&& final(self).timer_ids() == old(self).timer_ids().remove(k@)
                &&& r == Some(old(self)@[k@])
            },
            !(old(self).timer_ids().contains_key(k@) && old(self).timer_ids()[k@] == Some(id))
                ==> *final(self) == *old(self) && r is None,
            final(self).next_timer_id() == old(self).next_timer_id(),
            old(self).wf() ==> final(self).wf(),
    {
        let hit: bool = match self.map.get(k) {
            Some(e) => match &e.timer {
                Some(t) => t.id == id,
                None => false,
            },
            None => false,
        };
        if hit {
            match self.map.remove(k) {
                Some(e) => {
                    proof {
                        assert(self@ =~= old(self)@.remove(k@));
                        assert(self.timer_ids() =~= old(self).timer_ids().remove(k@));
                    }
                    // The dropped timer is the one firing right now: it is
                    // past its sleep, so it gets no cancellation request.
                    let Entry { value, timer: _ } = e;
                    Some(value)
                },
                // Unreachable: the lookup above saw the key under the same
                // exclusive borrow.
                None => None,
            }
        } else {
            None
        }
    }
}

/// Every key holds exactly one entry, so the value view and the timer view
/// describe the same key set: a key has a (single) live-or-absent timer
/// slot exactly when it holds a value.
pub proof fn lemma_views_share_domain<K: View + Eq + Hash, V>(s: Store<K, V>)
    ensures
        s@.dom() == s.timer_ids().dom(),
{
    assert(s@.dom() =~= s.timer_ids().dom());
}

} // verus!
