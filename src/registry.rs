//! A store of records keyed by participant identity, with a default for absent keys.
use vstd::prelude::*;

verus! {

/// No identity appears twice among the entries.
pub open spec fn keys_unique<V>(s: Seq<(u64, V)>) -> bool {
    forall|i: int, j: int|
        0 <= i < s.len() && 0 <= j < s.len() && i != j ==> #[trigger] s[i].0 != #[trigger] s[j].0
}

/// The entries hold a record for `id`.
pub open spec fn has_key<V>(s: Seq<(u64, V)>, id: u64) -> bool {
    exists|i: int| 0 <= i < s.len() && s[i].0 == id
}

/// The record stored for `id` among the entries, or `absent` when there is none.
pub open spec fn lookup<V>(s: Seq<(u64, V)>, id: u64, absent: V) -> V {
    if has_key(s, id) {
        s[choose|i: int| 0 <= i < s.len() && s[i].0 == id].1
    } else {
        absent
    }
}

/// With unique keys, the record of the key at `i` is the one stored at `i`.
pub proof fn lemma_lookup_at<V>(s: Seq<(u64, V)>, i: int, absent: V)
    requires
        keys_unique(s),
        0 <= i < s.len(),
    ensures
        lookup(s, s[i].0, absent) == s[i].1,
{
    let id = s[i].0;
    assert(has_key(s, id));
    let j = choose|k: int| 0 <= k < s.len() && s[k].0 == id;
    assert(s[j].0 == s[i].0);
}

/// Index of the entry of `id`, if there is one.
pub fn find<V>(s: &Vec<(u64, V)>, id: u64) -> (r: Option<usize>)
    ensures
        match r {
            Some(i) => i < s@.len() && s@[i as int].0 == id,
            None => !has_key(s@, id),
        },
{
    let mut i: usize = 0;
    while i < s.len()
        invariant
            i <= s@.len(),
            forall|k: int| 0 <= k < i ==> s@[k].0 != id,
        decreases s@.len() - i,
    {
        if s[i].0 == id {
            return Some(i);
        }
        i = i + 1;
    }
    None
}

/// Stores `x` as the record of `id`, in place of any earlier one.
pub fn put<V>(s: &mut Vec<(u64, V)>, id: u64, x: V, Ghost(absent): Ghost<V>)
    requires
        keys_unique(old(s)@),
    ensures
        keys_unique(final(s)@),
        lookup(final(s)@, id, absent) == x,
        forall|other: u64| other != id ==> #[trigger] lookup(final(s)@, other, absent) == lookup(old(s)@, other, absent),
        has_key(final(s)@, id),
        forall|other: u64| other != id ==> #[trigger] has_key(final(s)@, other) == has_key(old(s)@, other),
        has_key(old(s)@, id) ==> exists|i: int|
            0 <= i < old(s)@.len() && old(s)@[i].0 == id && final(s)@ == old(s)@.update(i, (id, x)),
        !has_key(old(s)@, id) ==> final(s)@ == old(s)@.push((id, x)),
{
    let ghost s0 = s@;
    match find(s, id) {
        Some(i) => {
            s.set(i, (id, x));
            proof {
                let t = s@;
                assert(t =~= s0.update(i as int, (id, x)));
                assert(keys_unique(t));
                lemma_lookup_at(t, i as int, absent);
                assert forall|other: u64| #![trigger lookup(t, other, absent)] #![trigger has_key(t, other)] other != id implies lookup(t, other, absent) == lookup(s0, other, absent) && has_key(t, other) == has_key(s0, other) by {
                    if has_key(t, other) {
                        let k = choose|k: int| 0 <= k < t.len() && t[k].0 == other;
                        lemma_lookup_at(t, k, absent);
                        lemma_lookup_at(s0, k, absent);
                        assert(s0[k].0 == other);
                    } else {
                        assert forall|k: int| 0 <= k < s0.len() implies s0[k].0 != other by {
                            assert(t[k].0 == s0[k].0 || k == i);
                        }
                    }
                }
            }
        },
        None => {
            s.push((id, x));
            proof {
                let t = s@;
                assert(t =~= s0.push((id, x)));
                assert(keys_unique(t));
                lemma_lookup_at(t, s0.len() as int, absent);
                assert forall|other: u64| #![trigger lookup(t, other, absent)] #![trigger has_key(t, other)] other != id implies lookup(t, other, absent) == lookup(s0, other, absent) && has_key(t, other) == has_key(s0, other) by {
                    if has_key(t, other) {
                        let k = choose|k: int| 0 <= k < t.len() && t[k].0 == other;
                        lemma_lookup_at(t, k, absent);
                        lemma_lookup_at(s0, k, absent);
                        assert(s0[k].0 == other);
                    } else {
                        assert forall|k: int| 0 <= k < s0.len() implies s0[k].0 != other by {
                            assert(t[k] == s0[k]);
                        }
                    }
                }
            }
        },
    }
}

} // verus!
