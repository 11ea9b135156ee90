//! Sorted association vectors.
//!
//! The registry's stores are modelled as vectors of key/value entries kept
//! strictly sorted by key in the order of `str_lt`, which is what makes token
//! enumeration lexicographic and pagination cursors meaningful. The spec view
//! of a store is the sequence of its entries with keys and values abstracted;
//! lookups are described by `assoc_get`, a first-match association lookup.

use vstd::prelude::*;
use vstd::pervasive::VecAdditionalExecFns;
use crate::order::{str_lt, str_cmp, KeyOrder, lemma_str_lt_asym};

verus! {

/// The keys of an entry sequence, in order.
pub open spec fn assoc_keys<T>(s: Seq<(Seq<char>, T)>) -> Seq<Seq<char>> {
    s.map_values(|e: (Seq<char>, T)| e.0)
}

/// Entries stand in strictly ascending key order.
pub open spec fn assoc_sorted<T>(s: Seq<(Seq<char>, T)>) -> bool {
    forall|i: int, j: int|
        #![trigger s[i], s[j]]
        0 <= i < j < s.len() ==> str_lt(s[i].0, s[j].0)
}

/// The value at `k`: the first entry with that key, if any.
pub open spec fn assoc_get<T>(s: Seq<(Seq<char>, T)>, k: Seq<char>) -> Option<T>
    decreases s.len(),
{
    if s.len() == 0 {
        None
    } else if s[0].0 == k {
        Some(s[0].1)
    } else {
        assoc_get(s.drop_first(), k)
    }
}

/// Whether some entry has key `k`.
pub open spec fn assoc_contains<T>(s: Seq<(Seq<char>, T)>, k: Seq<char>) -> bool {
    assoc_get(s, k) is Some
}

/// Whether `k` lies beyond the pagination cursor (exclusive).
pub open spec fn after_cursor(k: Seq<char>, cursor: Option<Seq<char>>) -> bool {
    match cursor {
        Option::None => true,
        Option::Some(c) => str_lt(c, k),
    }
}

/// The keys of `s` past `cursor`, in entry order.
pub open spec fn keys_after<T>(s: Seq<(Seq<char>, T)>, cursor: Option<Seq<char>>) -> Seq<Seq<char>>
    decreases s.len(),
{
    if s.len() == 0 {
        Seq::empty()
    } else if after_cursor(s.last().0, cursor) {
        keys_after(s.drop_last(), cursor).push(s.last().0)
    } else {
        keys_after(s.drop_last(), cursor)
    }
}

/// The page of keys past `cursor`, at most `limit` of them, in order.
pub open spec fn spec_page<T>(
    s: Seq<(Seq<char>, T)>,
    cursor: Option<Seq<char>>,
    limit: int,
) -> Seq<Seq<char>> {
    let all = keys_after(s, cursor);
    all.take(if limit <= all.len() { limit } else { all.len() as int })
}

/// Every key a pagination lists is the key of some entry past the cursor.
pub proof fn lemma_keys_after_mem<T>(
    s: Seq<(Seq<char>, T)>,
    cursor: Option<Seq<char>>,
    j: int,
)
    requires
        0 <= j < keys_after(s, cursor).len(),
    ensures
        exists|i: int|
            0 <= i < s.len() && (#[trigger] s[i]).0 == keys_after(s, cursor)[j] && after_cursor(
                s[i].0,
                cursor,
            ),
    decreases s.len(),
{
    let ks = keys_after(s, cursor);
    if s.len() > 0 {
        let rest = keys_after(s.drop_last(), cursor);
        if after_cursor(s.last().0, cursor) && j == ks.len() - 1 {
            assert(s[s.len() - 1].0 == ks[j] && after_cursor(s[s.len() - 1].0, cursor));
        } else {
            lemma_keys_after_mem(s.drop_last(), cursor, j);
            let i = choose|i: int|
                0 <= i < s.drop_last().len() && (#[trigger] s.drop_last()[i]).0 == rest[j]
                    && after_cursor(s.drop_last()[i].0, cursor);
            assert(s[i] == s.drop_last()[i]);
            assert(s[i].0 == ks[j] && after_cursor(s[i].0, cursor));
        }
    }
}

/// The keys a pagination lists ascend strictly: sorted entries give a
/// sorted listing.
pub proof fn lemma_keys_after_sorted<T>(s: Seq<(Seq<char>, T)>, cursor: Option<Seq<char>>)
    requires
        assoc_sorted(s),
    ensures
        forall|a: int, b: int|
            #![trigger keys_after(s, cursor)[a], keys_after(s, cursor)[b]]
            0 <= a < b < keys_after(s, cursor).len() ==> str_lt(
                keys_after(s, cursor)[a],
                keys_after(s, cursor)[b],
            ),
    decreases s.len(),
{
    if s.len() > 0 {
        lemma_sorted_drop_last(s);
        lemma_keys_after_sorted(s.drop_last(), cursor);
        let ka = keys_after(s, cursor);
        let rest = keys_after(s.drop_last(), cursor);
        if after_cursor(s.last().0, cursor) {
            assert forall|a: int, b: int|
                #![trigger ka[a], ka[b]]
                0 <= a < b < ka.len() implies str_lt(ka[a], ka[b]) by {
                if b == ka.len() - 1 {
                    assert(ka[a] == rest[a]);
                    lemma_keys_after_mem(s.drop_last(), cursor, a);
                    let i = choose|i: int|
                        0 <= i < s.drop_last().len() && (#[trigger] s.drop_last()[i]).0 == rest[a]
                            && after_cursor(s.drop_last()[i].0, cursor);
                    assert(s[i] == s.drop_last()[i]);
                    assert(str_lt(s[i].0, s[s.len() - 1].0));
                } else {
                    assert(ka[a] == rest[a] && ka[b] == rest[b]);
                }
            }
        }
    }
}

/// Dropping the last entry keeps the entries sorted.
pub proof fn lemma_sorted_drop_last<T>(s: Seq<(Seq<char>, T)>)
    requires
        assoc_sorted(s),
        s.len() > 0,
    ensures
        assoc_sorted(s.drop_last()),
{
    let d = s.drop_last();
    assert forall|i: int, j: int|
        #![trigger d[i], d[j]]
        0 <= i < j < d.len() implies str_lt(d[i].0, d[j].0) by {
        assert(d[i] == s[i]);
        assert(d[j] == s[j]);
    }
}

/// The entries with `k` bound to `v`, keeping sorted order.
pub open spec fn assoc_put<T>(s: Seq<(Seq<char>, T)>, k: Seq<char>, v: T) -> Seq<(Seq<char>, T)>
    decreases s.len(),
{
    if s.len() == 0 {
        seq![(k, v)]
    } else if s[0].0 == k {
        seq![(k, v)] + s.drop_first()
    } else if str_lt(k, s[0].0) {
        seq![(k, v)] + s
    } else {
        seq![s[0]] + assoc_put(s.drop_first(), k, v)
    }
}

/// The entries without any binding of `k`.
pub open spec fn assoc_del<T>(s: Seq<(Seq<char>, T)>, k: Seq<char>) -> Seq<(Seq<char>, T)>
    decreases s.len(),
{
    if s.len() == 0 {
        s
    } else if s[0].0 == k {
        s.drop_first()
    } else {
        seq![s[0]] + assoc_del(s.drop_first(), k)
    }
}

/// Replacing the value at the position of a present key is `assoc_put`.
pub proof fn lemma_put_is_update<T>(s: Seq<(Seq<char>, T)>, i: int, v: T)
    requires
        assoc_sorted(s),
        0 <= i < s.len(),
    ensures
        s.update(i, (s[i].0, v)) == assoc_put(s, s[i].0, v),
    decreases i,
{
    let k = s[i].0;
    if i == 0 {
        assert(s.update(0, (k, v)) =~= seq![(k, v)] + s.drop_first());
    } else {
        lemma_str_lt_asym(s[0].0, k);
        lemma_sorted_drop_first(s);
        assert(s.drop_first()[i - 1] == s[i]);
        lemma_put_is_update(s.drop_first(), i - 1, v);
        assert(s.update(i, (k, v)) =~= seq![s[0]] + s.drop_first().update(i - 1, (k, v)));
    }
}

/// Inserting a fresh key at its sorted position is `assoc_put`.
pub proof fn lemma_put_is_insert<T>(s: Seq<(Seq<char>, T)>, i: int, k: Seq<char>, v: T)
    requires
        assoc_sorted(s),
        0 <= i <= s.len(),
        forall|j: int| 0 <= j < i ==> str_lt((#[trigger] s[j]).0, k),
        forall|j: int| i <= j < s.len() ==> str_lt(k, (#[trigger] s[j]).0),
    ensures
        s.insert(i, (k, v)) == assoc_put(s, k, v),
    decreases i,
{
    if i == 0 {
        if s.len() == 0 {
            assert(s.insert(0, (k, v)) =~= seq![(k, v)]);
        } else {
            lemma_str_lt_asym(k, s[0].0);
            assert(s.insert(0, (k, v)) =~= seq![(k, v)] + s);
        }
    } else {
        lemma_str_lt_asym(s[0].0, k);
        lemma_sorted_drop_first(s);
        lemma_put_is_insert(s.drop_first(), i - 1, k, v);
        assert(s.insert(i, (k, v)) =~= seq![s[0]] + s.drop_first().insert(i - 1, (k, v)));
    }
}

/// Removing the entry of a present key is `assoc_del`.
pub proof fn lemma_del_is_remove<T>(s: Seq<(Seq<char>, T)>, i: int)
    requires
        assoc_sorted(s),
        0 <= i < s.len(),
    ensures
        s.remove(i) == assoc_del(s, s[i].0),
    decreases i,
{
    let k = s[i].0;
    if i == 0 {
        assert(s.remove(0) =~= s.drop_first());
    } else {
        lemma_str_lt_asym(s[0].0, k);
        lemma_sorted_drop_first(s);
        assert(s.drop_first()[i - 1] == s[i]);
        lemma_del_is_remove(s.drop_first(), i - 1);
        assert(s.remove(i) =~= seq![s[0]] + s.drop_first().remove(i - 1));
    }
}

/// Deleting an absent key changes nothing.
pub proof fn lemma_del_absent<T>(s: Seq<(Seq<char>, T)>, k: Seq<char>)
    requires
        forall|i: int| 0 <= i < s.len() ==> (#[trigger] s[i]).0 != k,
    ensures
        assoc_del(s, k) == s,
    decreases s.len(),
{
    if s.len() > 0 {
        lemma_del_absent(s.drop_first(), k);
        assert(seq![s[0]] + s.drop_first() =~= s);
    }
}

/// What `assoc_put` does, stated without the insertion position: order kept,
/// the new binding present, all others kept, and the length up by one exactly
/// when the key was fresh.
pub proof fn lemma_assoc_put_props<T>(s: Seq<(Seq<char>, T)>, k: Seq<char>, v: T, k2: Seq<char>)
    requires
        assoc_sorted(s),
    ensures
        assoc_sorted(assoc_put(s, k, v)),
        assoc_get(assoc_put(s, k, v), k) == Some(v),
        k2 != k ==> assoc_get(assoc_put(s, k, v), k2) == assoc_get(s, k2),
        assoc_contains(s, k) ==> assoc_put(s, k, v).len() == s.len() && assoc_keys(
            assoc_put(s, k, v),
        ) == assoc_keys(s),
        !assoc_contains(s, k) ==> assoc_put(s, k, v).len() == s.len() + 1,
    decreases s.len(),
{
    if s.len() == 0 {
        let p = assoc_put(s, k, v);
        assert(p =~= seq![(k, v)]);
        assert(p[0] == (k, v));
        assert(p.drop_first() =~= Seq::<(Seq<char>, T)>::empty());
        assert(assoc_get(p.drop_first(), k2) is None);
        if k2 != k {
            assert(assoc_get(p, k2) == assoc_get(p.drop_first(), k2));
            assert(assoc_get(s, k2) is None);
            assert(assoc_get(p, k2) == assoc_get(s, k2));
        }
    } else if s[0].0 == k {
        let p = assoc_put(s, k, v);
        assert(p =~= s.update(0, (k, v)));
        lemma_assoc_update(s, 0, v, k2);
        lemma_assoc_update(s, 0, v, k);
        if k2 != k {
            assert(assoc_get(p, k2) == assoc_get(s, k2));
        }
    } else if str_lt(k, s[0].0) {
        let p = assoc_put(s, k, v);
        assert(p =~= s.insert(0, (k, v)));
        assert forall|j: int| 0 <= j < s.len() implies str_lt(k, (#[trigger] s[j]).0) by {
            if j > 0 {
                crate::order::lemma_str_lt_trans(k, s[0].0, s[j].0);
            }
        }
        lemma_assoc_insert(s, 0, k, v, k2);
        lemma_assoc_insert(s, 0, k, v, k);
        assert forall|j: int| 0 <= j < s.len() implies (#[trigger] s[j]).0 != k by {
            lemma_str_lt_asym(k, s[j].0);
        }
        lemma_assoc_get_absent(s, k);
        assert(assoc_keys(p) =~= assoc_keys(s).insert(0, k));
    } else {
        crate::order::lemma_str_lt_connected(s[0].0, k);
        lemma_str_lt_asym(s[0].0, k);
        lemma_sorted_drop_first(s);
        lemma_assoc_put_props(s.drop_first(), k, v, k2);
        let p = assoc_put(s, k, v);
        let pd = assoc_put(s.drop_first(), k, v);
        assert(p == seq![s[0]] + pd);
        assert(p.len() == 1 + pd.len());
        assert(p[0] == s[0]);
        assert(p.drop_first() =~= pd);
        assert(assoc_get(s, k) == assoc_get(s.drop_first(), k));
        assert(assoc_get(p, k) == assoc_get(pd, k));
        if k2 != k {
            if k2 == s[0].0 {
                assert(assoc_get(p, k2) == Some(s[0].1));
                assert(assoc_get(s, k2) == Some(s[0].1));
            } else {
                assert(assoc_get(p, k2) == assoc_get(pd, k2));
                assert(assoc_get(s, k2) == assoc_get(s.drop_first(), k2));
            }
        }
        // Every key of the tail result is either k or an original tail key,
        // so the head stays below them all.
        assert forall|a: int, b: int|
            #![trigger p[a], p[b]]
            0 <= a < b < p.len() implies str_lt(p[a].0, p[b].0) by {
            if a == 0 {
                lemma_put_mem(s.drop_first(), k, v, b - 1);
                if pd[b - 1].0 == k {
                } else {
                    let j = choose|j: int|
                        0 <= j < s.drop_first().len() && (s.drop_first()[j]).0 == pd[b - 1].0;
                    assert(s[j + 1].0 == pd[b - 1].0);
                }
            } else {
                assert(pd[a - 1] == p[a] && pd[b - 1] == p[b]);
            }
        }
        if assoc_contains(s, k) {
            assert(assoc_contains(s.drop_first(), k));
            assert forall|i: int| 0 <= i < p.len() implies assoc_keys(p)[i] == assoc_keys(
                s,
            )[i] by {
                if i == 0 {
                    assert(p[0].0 == s[0].0);
                } else {
                    assert(p[i] == pd[i - 1]);
                    assert(assoc_keys(pd)[i - 1] == assoc_keys(s.drop_first())[i - 1]);
                    assert(pd[i - 1].0 == s.drop_first()[i - 1].0);
                    assert(s.drop_first()[i - 1] == s[i]);
                }
            }
            assert(assoc_keys(p) =~= assoc_keys(s));
        }
    }
}

/// Every key in an `assoc_put` result is the put key or an original key.
pub proof fn lemma_put_mem<T>(s: Seq<(Seq<char>, T)>, k: Seq<char>, v: T, i: int)
    requires
        0 <= i < assoc_put(s, k, v).len(),
    ensures
        assoc_put(s, k, v)[i].0 == k || exists|j: int|
            0 <= j < s.len() && (#[trigger] s[j]).0 == assoc_put(s, k, v)[i].0,
    decreases s.len(),
{
    let p = assoc_put(s, k, v);
    if s.len() == 0 {
    } else if s[0].0 == k {
        if i > 0 {
            assert(p[i] == s.drop_first()[i - 1]);
            assert(s[i] == p[i]);
        }
    } else if str_lt(k, s[0].0) {
        if i > 0 {
            assert(p[i] == s[i - 1]);
        }
    } else {
        if i == 0 {
            assert(p[0] == s[0]);
        } else {
            let pd = assoc_put(s.drop_first(), k, v);
            assert(p[i] == pd[i - 1]);
            lemma_put_mem(s.drop_first(), k, v, i - 1);
            if pd[i - 1].0 != k {
                let j = choose|j: int|
                    0 <= j < s.drop_first().len() && (s.drop_first()[j]).0 == pd[i - 1].0;
                assert(s[j + 1].0 == pd[i - 1].0);
            }
        }
    }
}

/// What `assoc_del` does, stated without the position: order kept, the key
/// gone, all others kept, and the length down by one exactly when the key was
/// present.
pub proof fn lemma_assoc_del_props<T>(s: Seq<(Seq<char>, T)>, k: Seq<char>, k2: Seq<char>)
    requires
        assoc_sorted(s),
    ensures
        assoc_sorted(assoc_del(s, k)),
        assoc_get(assoc_del(s, k), k) is None,
        k2 != k ==> assoc_get(assoc_del(s, k), k2) == assoc_get(s, k2),
        assoc_contains(s, k) ==> assoc_del(s, k).len() + 1 == s.len(),
        !assoc_contains(s, k) ==> assoc_del(s, k) == s,
    decreases s.len(),
{
    if s.len() == 0 {
    } else if s[0].0 == k {
        assert(s.drop_first() =~= s.remove(0));
        lemma_assoc_remove(s, 0, k2);
        lemma_assoc_remove(s, 0, k);
    } else {
        lemma_sorted_drop_first(s);
        lemma_assoc_del_props(s.drop_first(), k, k2);
        let d = assoc_del(s, k);
        let dd = assoc_del(s.drop_first(), k);
        assert(d == seq![s[0]] + dd);
        assert(d[0] == s[0]);
        assert(d.drop_first() =~= dd);
        assert forall|a: int, b: int|
            #![trigger d[a], d[b]]
            0 <= a < b < d.len() implies str_lt(d[a].0, d[b].0) by {
            if a == 0 {
                lemma_del_mem(s.drop_first(), k, b - 1);
                let j = choose|j: int|
                    0 <= j < s.drop_first().len() && (s.drop_first()[j]).0 == dd[b - 1].0;
                assert(s[j + 1].0 == dd[b - 1].0);
            } else {
                assert(dd[a - 1] == d[a] && dd[b - 1] == d[b]);
            }
        }
        if !assoc_contains(s, k) {
            assert(seq![s[0]] + s.drop_first() =~= s);
        }
    }
}

/// Every key in an `assoc_del` result is an original key.
pub proof fn lemma_del_mem<T>(s: Seq<(Seq<char>, T)>, k: Seq<char>, i: int)
    requires
        0 <= i < assoc_del(s, k).len(),
    ensures
        exists|j: int| 0 <= j < s.len() && (#[trigger] s[j]).0 == assoc_del(s, k)[i].0,
    decreases s.len(),
{
    let d = assoc_del(s, k);
    if s.len() == 0 {
    } else if s[0].0 == k {
        assert(s[i + 1] == d[i]);
    } else {
        if i == 0 {
            assert(d[0] == s[0]);
            assert(s[0].0 == d[0].0);
        } else {
            let dd = assoc_del(s.drop_first(), k);
            assert(d[i] == dd[i - 1]);
            lemma_del_mem(s.drop_first(), k, i - 1);
            let j = choose|j: int|
                0 <= j < s.drop_first().len() && (s.drop_first()[j]).0 == dd[i - 1].0;
            assert(s[j + 1].0 == dd[i - 1].0);
        }
    }
}

/// Rebinding a key after deleting it is the same as rebinding it directly.
pub proof fn lemma_put_del<T>(s: Seq<(Seq<char>, T)>, k: Seq<char>, v: T)
    requires
        assoc_sorted(s),
    ensures
        assoc_put(assoc_del(s, k), k, v) == assoc_put(s, k, v),
    decreases s.len(),
{
    if s.len() == 0 {
    } else if s[0].0 == k {
        let d = s.drop_first();
        lemma_sorted_drop_first(s);
        if d.len() == 0 {
            assert(assoc_put(d, k, v) =~= seq![(k, v)]);
            assert(assoc_put(s, k, v) =~= seq![(k, v)] + d);
            assert(seq![(k, v)] + d =~= seq![(k, v)]);
        } else {
            assert(d[0] == s[1]);
            assert(str_lt(k, d[0].0));
            lemma_str_lt_asym(k, d[0].0);
            assert(assoc_put(d, k, v) == seq![(k, v)] + d);
        }
    } else if str_lt(k, s[0].0) {
        // The key is below every stored key, so deleting it changes nothing.
        assert forall|j: int| 0 <= j < s.len() implies (#[trigger] s[j]).0 != k by {
            if j > 0 {
                crate::order::lemma_str_lt_trans(k, s[0].0, s[j].0);
            }
            lemma_str_lt_asym(k, s[j].0);
        }
        lemma_del_absent(s, k);
    } else {
        crate::order::lemma_str_lt_connected(s[0].0, k);
        lemma_str_lt_asym(s[0].0, k);
        lemma_sorted_drop_first(s);
        lemma_put_del(s.drop_first(), k, v);
        let d = assoc_del(s, k);
        assert(d == seq![s[0]] + assoc_del(s.drop_first(), k));
        assert(d[0] == s[0]);
        assert(d.len() > 0);
        assert(d.drop_first() =~= assoc_del(s.drop_first(), k));
        assert(assoc_put(d, k, v) == seq![s[0]] + assoc_put(d.drop_first(), k, v));
        assert(assoc_put(s, k, v) == seq![s[0]] + assoc_put(s.drop_first(), k, v));
    }
}

/// Dropping the first entry keeps the entries sorted.
pub proof fn lemma_sorted_drop_first<T>(s: Seq<(Seq<char>, T)>)
    requires
        assoc_sorted(s),
        s.len() > 0,
    ensures
        assoc_sorted(s.drop_first()),
{
    let d = s.drop_first();
    assert forall|i: int, j: int|
        #![trigger d[i], d[j]]
        0 <= i < j < d.len() implies str_lt(d[i].0, d[j].0) by {
        assert(d[i] == s[i + 1]);
        assert(d[j] == s[j + 1]);
    }
}

/// In a sorted entry sequence, the entry at `i` is what lookup of its key finds.
pub proof fn lemma_assoc_get_at<T>(s: Seq<(Seq<char>, T)>, i: int)
    requires
        assoc_sorted(s),
        0 <= i < s.len(),
    ensures
        assoc_get(s, s[i].0) == Some(s[i].1),
    decreases i,
{
    if i > 0 {
        lemma_str_lt_asym(s[0].0, s[i].0);
        lemma_sorted_drop_first(s);
        lemma_assoc_get_at(s.drop_first(), i - 1);
        assert(s.drop_first()[i - 1] == s[i]);
    }
}

/// A key held by no entry is not found.
pub proof fn lemma_assoc_get_absent<T>(s: Seq<(Seq<char>, T)>, k: Seq<char>)
    requires
        forall|i: int| 0 <= i < s.len() ==> (#[trigger] s[i]).0 != k,
    ensures
        assoc_get(s, k) is None,
    decreases s.len(),
{
    if s.len() > 0 {
        lemma_assoc_get_absent(s.drop_first(), k);
    }
}

/// Replacing the value at `i` changes the lookup of that entry's key alone,
/// and keeps order and keys.
pub proof fn lemma_assoc_update<T>(s: Seq<(Seq<char>, T)>, i: int, v: T, k2: Seq<char>)
    requires
        assoc_sorted(s),
        0 <= i < s.len(),
    ensures
        assoc_sorted(s.update(i, (s[i].0, v))),
        assoc_keys(s.update(i, (s[i].0, v))) == assoc_keys(s),
        assoc_get(s.update(i, (s[i].0, v)), k2) == if k2 == s[i].0 {
            Some(v)
        } else {
            assoc_get(s, k2)
        },
    decreases i,
{
    let s2 = s.update(i, (s[i].0, v));
    assert(assoc_keys(s2) =~= assoc_keys(s));
    assert forall|a: int, b: int|
        #![trigger s2[a], s2[b]]
        0 <= a < b < s2.len() implies str_lt(s2[a].0, s2[b].0) by {
        assert(s2[a].0 == s[a].0);
        assert(s2[b].0 == s[b].0);
    }
    if i == 0 {
        assert(s2.drop_first() =~= s.drop_first());
    } else {
        assert(s2[0] == s[0]);
        if k2 == s[0].0 {
            lemma_str_lt_asym(s[0].0, s[i].0);
        } else {
            lemma_sorted_drop_first(s);
            assert(s.drop_first()[i - 1] == s[i]);
            lemma_assoc_update(s.drop_first(), i - 1, v, k2);
            assert(s2.drop_first() =~= s.drop_first().update(i - 1, (s[i].0, v)));
        }
    }
}

/// Inserting a fresh key at its sorted position adds exactly that binding,
/// and keeps order; the key list gains `k` at position `i`.
pub proof fn lemma_assoc_insert<T>(s: Seq<(Seq<char>, T)>, i: int, k: Seq<char>, v: T, k2: Seq<char>)
    requires
        assoc_sorted(s),
        0 <= i <= s.len(),
        forall|j: int| 0 <= j < i ==> str_lt((#[trigger] s[j]).0, k),
        forall|j: int| i <= j < s.len() ==> str_lt(k, (#[trigger] s[j]).0),
    ensures
        assoc_sorted(s.insert(i, (k, v))),
        assoc_keys(s.insert(i, (k, v))) == assoc_keys(s).insert(i, k),
        assoc_get(s.insert(i, (k, v)), k2) == if k2 == k {
            Some(v)
        } else {
            assoc_get(s, k2)
        },
    decreases i,
{
    let s2 = s.insert(i, (k, v));
    assert(assoc_keys(s2) =~= assoc_keys(s).insert(i, k));
    assert forall|a: int, b: int|
        #![trigger s2[a], s2[b]]
        0 <= a < b < s2.len() implies str_lt(s2[a].0, s2[b].0) by {
        if a < i && b < i {
            assert(s2[a] == s[a] && s2[b] == s[b]);
        } else if a < i && b == i {
            assert(s2[a] == s[a] && s2[b].0 == k);
        } else if a < i && b > i {
            assert(s2[a] == s[a] && s2[b] == s[b - 1]);
        } else if a == i && b > i {
            assert(s2[a].0 == k && s2[b] == s[b - 1]);
        } else {
            assert(s2[a] == s[a - 1] && s2[b] == s[b - 1]);
        }
    }
    if i == 0 {
        if k2 != k {
            assert(s2.drop_first() =~= s);
            if s.len() > 0 {
                lemma_str_lt_asym(k, s[0].0);
            }
        }
    } else {
        assert(s2[0] == s[0]);
        lemma_str_lt_asym(s[0].0, k);
        if k2 == s[0].0 {
        } else {
            lemma_sorted_drop_first(s);
            lemma_assoc_insert(s.drop_first(), i - 1, k, v, k2);
            assert(s2.drop_first() =~= s.drop_first().insert(i - 1, (k, v)));
        }
    }
}

/// Removing the entry at `i` drops exactly that binding and keeps order;
/// the key list loses position `i`.
pub proof fn lemma_assoc_remove<T>(s: Seq<(Seq<char>, T)>, i: int, k2: Seq<char>)
    requires
        assoc_sorted(s),
        0 <= i < s.len(),
    ensures
        assoc_sorted(s.remove(i)),
        assoc_keys(s.remove(i)) == assoc_keys(s).remove(i),
        assoc_get(s.remove(i), k2) == if k2 == s[i].0 {
            None::<T>
        } else {
            assoc_get(s, k2)
        },
    decreases i,
{
    let s2 = s.remove(i);
    assert(assoc_keys(s2) =~= assoc_keys(s).remove(i));
    assert forall|a: int, b: int|
        #![trigger s2[a], s2[b]]
        0 <= a < b < s2.len() implies str_lt(s2[a].0, s2[b].0) by {
        let a0: int = if a < i { a } else { a + 1 };
        let b0: int = if b < i { b } else { b + 1 };
        assert(s2[a] == s[a0]);
        assert(s2[b] == s[b0]);
    }
    if i == 0 {
        assert(s2 =~= s.drop_first());
        if k2 == s[0].0 {
            assert forall|j: int| 0 <= j < s2.len() implies (#[trigger] s2[j]).0 != k2 by {
                assert(s2[j] == s[j + 1]);
                lemma_str_lt_asym(s[0].0, s[j + 1].0);
            }
            lemma_assoc_get_absent(s2, k2);
        }
    } else {
        assert(s2[0] == s[0]);
        if k2 == s[0].0 {
            lemma_str_lt_asym(s[0].0, s[i].0);
            assert(s2.drop_first() =~= s.drop_first().remove(i - 1));
            lemma_sorted_drop_first(s);
            lemma_assoc_remove(s.drop_first(), i - 1, k2);
        } else {
            lemma_sorted_drop_first(s);
            lemma_assoc_remove(s.drop_first(), i - 1, k2);
            assert(s2.drop_first() =~= s.drop_first().remove(i - 1));
            assert(s.drop_first()[i - 1] == s[i]);
        }
    }
}

/// A store of values keyed by strings, kept sorted by key.
#[derive(Debug)]
pub struct AssocVec<T> {
    entries: Vec<(String, T)>,
}

impl<T: DeepView> View for AssocVec<T> {
    type V = Seq<(Seq<char>, T::V)>;

    closed spec fn view(&self) -> Seq<(Seq<char>, T::V)> {
        self.entries@.map_values(|e: (String, T)| (e.0@, e.1.deep_view()))
    }
}

impl<T: DeepView> DeepView for AssocVec<T> {
    type V = Seq<(Seq<char>, T::V)>;

    open spec fn deep_view(&self) -> Seq<(Seq<char>, T::V)> {
        self.view()
    }
}

impl<T: DeepView> AssocVec<T> {
    /// The store's entries are sorted strictly by key.
    pub open spec fn wf(&self) -> bool {
        assoc_sorted(self@)
    }

    /// An empty store.
    pub fn new() -> (r: AssocVec<T>)
        ensures
            r@ =~= Seq::<(Seq<char>, T::V)>::empty(),
            r.wf(),
    {
        AssocVec { entries: Vec::new() }
    }

    /// The entry at position `i`, in key order.
    pub fn entry_at(&self, i: usize) -> (r: &(String, T))
        requires
            i < self@.len(),
        ensures
            self@[i as int] == (r.0@, r.1.deep_view()),
    {
        &self.entries[i]
    }

    /// The number of entries.
    pub fn len(&self) -> (n: usize)
        ensures
            n == self@.len(),
    {
        self.entries.len()
    }

    /// Looks the key up.
    pub fn get(&self, key: &str) -> (r: Option<&T>)
        requires
            self.wf(),
        ensures
            match r {
                Some(v) => assoc_get(self@, key@) == Some(v.deep_view()),
                None => assoc_get(self@, key@) is None,
            },
    {
        let n = self.entries.len();
        let mut i: usize = 0;
        while i < n
            invariant
                self.wf(),
                n == self@.len(),
                0 <= i <= n,
                forall|j: int| 0 <= j < i ==> (#[trigger] self@[j]).0 != key@,
            decreases n - i,
        {
            let e = &self.entries[i];
            match str_cmp(e.0.as_str(), key) {
                KeyOrder::Eq => {
                    proof {
                        lemma_assoc_get_at(self@, i as int);
                    }
                    return Some(&e.1);
                },
                KeyOrder::Gt => {
                    proof {
                        assert forall|j: int| 0 <= j < self@.len() implies (#[trigger] self@[j]).0
                            != key@ by {
                            if j >= i {
                                if j > i {
                                    crate::order::lemma_str_lt_trans(
                                        key@,
                                        self@[i as int].0,
                                        self@[j].0,
                                    );
                                }
                                lemma_str_lt_asym(key@, self@[j].0);
                            }
                        }
                        lemma_assoc_get_absent(self@, key@);
                    }
                    return None;
                },
                KeyOrder::Lt => {
                    proof {
                        lemma_str_lt_asym(self@[i as int].0, key@);
                    }
                },
            }
            i += 1;
        }
        proof {
            lemma_assoc_get_absent(self@, key@);
        }
        None
    }

    /// Whether the key is present.
    pub fn contains_key(&self, key: &str) -> (r: bool)
        requires
            self.wf(),
        ensures
            r == assoc_contains(self@, key@),
    {
        self.get(key).is_some()
    }

    /// Inserts a binding for a key below every entry at or past `i` and above
    /// every entry before `i`.
    fn insert_at(&mut self, i: usize, key: &str, val: T)
        requires
            old(self).wf(),
            i <= old(self)@.len(),
            forall|j: int| 0 <= j < i ==> str_lt((#[trigger] old(self)@[j]).0, key@),
            forall|j: int| i <= j < old(self)@.len() ==> str_lt(key@, (#[trigger] old(self)@[j]).0),
        ensures
            final(self).wf(),
            assoc_get(final(self)@, key@) == Some(val.deep_view()),
            forall|k2: Seq<char>| k2 != key@ ==> #[trigger] assoc_get(final(self)@, k2)
                == assoc_get(old(self)@, k2),
            final(self)@.len() == old(self)@.len() + 1,
            assoc_keys(final(self)@) == assoc_keys(old(self)@).insert(i as int, key@),
            final(self)@ == assoc_put(old(self)@, key@, val.deep_view()),
    {
        let ghost pre = self@;
        self.entries.insert(i, (key.to_owned(), val));
        proof {
            assert(self@ =~= pre.insert(i as int, (key@, val.deep_view())));
            lemma_put_is_insert(pre, i as int, key@, val.deep_view());
            assert forall|k2: Seq<char>| true implies #[trigger] assoc_get(self@, k2) == (if k2
                == key@ {
                Some(val.deep_view())
            } else {
                assoc_get(pre, k2)
            }) by {
                lemma_assoc_insert(pre, i as int, key@, val.deep_view(), k2);
            }
            lemma_assoc_insert(pre, i as int, key@, val.deep_view(), key@);
        }
    }

    /// Binds `key` to `val`, replacing any previous binding.
    pub fn upsert(&mut self, key: &str, val: T)
        requires
            old(self).wf(),
        ensures
            final(self).wf(),
            assoc_get(final(self)@, key@) == Some(val.deep_view()),
            forall|k2: Seq<char>| k2 != key@ ==> #[trigger] assoc_get(final(self)@, k2)
                == assoc_get(old(self)@, k2),
            assoc_contains(old(self)@, key@) ==> assoc_keys(final(self)@) == assoc_keys(old(self)@)
                && final(self)@.len() == old(self)@.len(),
            !assoc_contains(old(self)@, key@) ==> final(self)@.len() == old(self)@.len() + 1
                && (exists|i: int|
                    0 <= i <= old(self)@.len() && assoc_keys(final(self)@) == assoc_keys(
                        old(self)@,
                    ).insert(i, key@)),
            final(self)@ == assoc_put(old(self)@, key@, val.deep_view()),
    {
        let n = self.entries.len();
        let mut i: usize = 0;
        while i < n
            invariant
                self.wf(),
                self@ == old(self)@,
                n == self@.len(),
                0 <= i <= n,
                forall|j: int| 0 <= j < i ==> str_lt((#[trigger] self@[j]).0, key@),
            decreases n - i,
        {
            let cmp = {
                let e = &self.entries[i];
                str_cmp(e.0.as_str(), key)
            };
            match cmp {
                KeyOrder::Eq => {
                    proof {
                        lemma_assoc_get_at(self@, i as int);
                        assert(assoc_contains(self@, key@));
                    }
                    let ghost pre = self@;
                    self.entries.set(i, (key.to_owned(), val));
                    proof {
                        assert(self@ =~= pre.update(i as int, (key@, val.deep_view())));
                        assert forall|k2: Seq<char>| true implies #[trigger] assoc_get(self@, k2)
                            == (if k2 == key@ {
                            Some(val.deep_view())
                        } else {
                            assoc_get(pre, k2)
                        }) by {
                            lemma_assoc_update(pre, i as int, val.deep_view(), k2);
                        }
                        lemma_assoc_update(pre, i as int, val.deep_view(), key@);
                        lemma_put_is_update(pre, i as int, val.deep_view());
                        assert((key@, val.deep_view()) == (pre[i as int].0, val.deep_view()));
                    }
                    return ;
                },
                KeyOrder::Gt => {
                    proof {
                        assert forall|j: int| i <= j < self@.len() implies str_lt(
                            key@,
                            (#[trigger] self@[j]).0,
                        ) by {
                            if j > i {
                                crate::order::lemma_str_lt_trans(
                                    key@,
                                    self@[i as int].0,
                                    self@[j].0,
                                );
                            }
                        }
                        assert forall|j: int| 0 <= j < self@.len() implies (#[trigger] self@[j]).0
                            != key@ by {
                            if j < i {
                                lemma_str_lt_asym(self@[j].0, key@);
                            } else {
                                lemma_str_lt_asym(key@, self@[j].0);
                            }
                        }
                        lemma_assoc_get_absent(self@, key@);
                    }
                    self.insert_at(i, key, val);
                    return ;
                },
                KeyOrder::Lt => {
                    proof {
                        lemma_str_lt_asym(self@[i as int].0, key@);
                    }
                    i += 1;
                },
            }
        }
        // The key is above every stored key: append at the end.
        proof {
            assert forall|j: int| 0 <= j < self@.len() implies (#[trigger] self@[j]).0 != key@ by {
                lemma_str_lt_asym(self@[j].0, key@);
            }
            lemma_assoc_get_absent(self@, key@);
        }
        self.insert_at(n, key, val);
    }

    /// Removes the binding of `key` and hands its value back, if present.
    pub fn take(&mut self, key: &str) -> (r: Option<T>)
        requires
            old(self).wf(),
        ensures
            final(self).wf(),
            assoc_get(final(self)@, key@) is None,
            forall|k2: Seq<char>| k2 != key@ ==> #[trigger] assoc_get(final(self)@, k2)
                == assoc_get(old(self)@, k2),
            match r {
                Some(v) => assoc_get(old(self)@, key@) == Some(v.deep_view()) && final(self)@.len()
                    + 1 == old(self)@.len() && (exists|i: int|
                    0 <= i < old(self)@.len() && assoc_keys(final(self)@) == assoc_keys(
                        old(self)@,
                    ).remove(i)),
                None => assoc_get(old(self)@, key@) is None && final(self)@ == old(self)@,
            },
            final(self)@ == assoc_del(old(self)@, key@),
    {
        let n = self.entries.len();
        let mut i: usize = 0;
        while i < n
            invariant
                self.wf(),
                self@ == old(self)@,
                n == self@.len(),
                0 <= i <= n,
                forall|j: int| 0 <= j < i ==> (#[trigger] self@[j]).0 != key@,
            decreases n - i,
        {
            let cmp = {
                let e = &self.entries[i];
                str_cmp(e.0.as_str(), key)
            };
            match cmp {
                KeyOrder::Eq => {
                    proof {
                        lemma_assoc_get_at(self@, i as int);
                    }
                    let ghost pre = self@;
                    let entry = self.entries.remove(i);
                    let v = entry.1;
                    proof {
                        assert(self@ =~= pre.remove(i as int));
                        assert(v.deep_view() == pre[i as int].1);
                        assert forall|k2: Seq<char>| true implies #[trigger] assoc_get(self@, k2)
                            == (if k2 == key@ {
                            None::<T::V>
                        } else {
                            assoc_get(pre, k2)
                        }) by {
                            lemma_assoc_remove(pre, i as int, k2);
                        }
                        lemma_assoc_remove(pre, i as int, key@);
                        assert(i < pre.len() && assoc_keys(self@) == assoc_keys(pre).remove(
                            i as int,
                        ));
                        lemma_del_is_remove(pre, i as int);
                    }
                    return Some(v);
                },
                KeyOrder::Gt => {
                    proof {
                        assert forall|j: int| 0 <= j < self@.len() implies (#[trigger] self@[j]).0
                            != key@ by {
                            if j >= i {
                                if j > i {
                                    crate::order::lemma_str_lt_trans(
                                        key@,
                                        self@[i as int].0,
                                        self@[j].0,
                                    );
                                }
                                lemma_str_lt_asym(key@, self@[j].0);
                            }
                        }
                        lemma_assoc_get_absent(self@, key@);
                        lemma_del_absent(self@, key@);
                    }
                    return None;
                },
                KeyOrder::Lt => {
                    proof {
                        lemma_str_lt_asym(self@[i as int].0, key@);
                    }
                    i += 1;
                },
            }
        }
        proof {
            lemma_assoc_get_absent(self@, key@);
            lemma_del_absent(self@, key@);
        }
        None
    }

    /// Removes the binding of `key`, if present.
    pub fn remove(&mut self, key: &str)
        requires
            old(self).wf(),
        ensures
            final(self).wf(),
            assoc_get(final(self)@, key@) is None,
            forall|k2: Seq<char>| k2 != key@ ==> #[trigger] assoc_get(final(self)@, k2)
                == assoc_get(old(self)@, k2),
            assoc_contains(old(self)@, key@) ==> final(self)@.len() + 1 == old(self)@.len(),
            !assoc_contains(old(self)@, key@) ==> final(self)@ == old(self)@,
            final(self)@ == assoc_del(old(self)@, key@),
    {
        let _ = self.take(key);
    }

    /// The page of keys past `start_after`, at most `limit` of them, ascending.
    pub fn keys_page(&self, start_after: Option<&str>, limit: usize) -> (r: Vec<String>)
        requires
            self.wf(),
        ensures
            r.deep_view() == spec_page(
                self@,
                match start_after {
                    Some(c) => Some(c@),
                    None => None,
                },
                limit as int,
            ),
    {
        let ghost cursor: Option<Seq<char>> = match start_after {
            Some(c) => Some(c@),
            None => None,
        };
        let n = self.entries.len();
        let mut out: Vec<String> = Vec::new();
        let mut i: usize = 0;
        proof {
            assert(self@.take(0) =~= Seq::<(Seq<char>, T::V)>::empty());
            assert(out.deep_view() =~= spec_page(self@.take(0), cursor, limit as int));
        }
        while i < n
            invariant
                self.wf(),
                n == self@.len(),
                0 <= i <= n,
                cursor == match start_after {
                    Some(c) => Some(c@),
                    None => None,
                },
                out.deep_view() == spec_page(self@.take(i as int), cursor, limit as int),
                out.deep_view().len() <= limit,
            decreases n - i,
        {
            let keep = match start_after {
                Option::None => true,
                Option::Some(c) => {
                    let e = &self.entries[i];
                    proof {
                        assert(self@[i as int].0 == e.0@);
                    }
                    matches!(str_cmp(c, e.0.as_str()), KeyOrder::Lt)
                },
            };
            proof {
                assert(keep == after_cursor(self@[i as int].0, cursor));
            }
            let ghost prev_all = keys_after(self@.take(i as int), cursor);
            let ghost next_all = keys_after(self@.take(i as int + 1), cursor);
            proof {
                assert(self@.take(i as int + 1).drop_last() =~= self@.take(i as int));
                assert(self@.take(i as int + 1).last() == self@[i as int]);
                if keep {
                    assert(next_all == prev_all.push(self@[i as int].0));
                } else {
                    assert(next_all == prev_all);
                }
            }
            if keep && out.len() < limit {
                let e = &self.entries[i];
                let ghost pre_out = out.deep_view();
                out.push(e.0.clone());
                proof {
                    assert(out.deep_view() =~= pre_out.push(self@[i as int].0));
                    assert(pre_out.len() == prev_all.len()) by {
                        assert(pre_out == prev_all.take(
                            if limit as int <= prev_all.len() {
                                limit as int
                            } else {
                                prev_all.len() as int
                            },
                        ));
                    }
                    assert(out.deep_view() =~= next_all.take(
                        if limit as int <= next_all.len() {
                            limit as int
                        } else {
                            next_all.len() as int
                        },
                    ));
                }
            } else {
                proof {
                    if keep {
                        // The page is already full: the longer key list
                        // truncates to the same page.
                        assert(out.deep_view().len() == limit);
                        assert(prev_all.len() >= limit);
                        assert(next_all.take(limit as int) =~= prev_all.take(limit as int));
                        assert(out.deep_view() == spec_page(
                            self@.take(i as int + 1),
                            cursor,
                            limit as int,
                        ));
                    } else {
                        assert(out.deep_view() == spec_page(
                            self@.take(i as int + 1),
                            cursor,
                            limit as int,
                        ));
                    }
                }
            }
            i += 1;
        }
        proof {
            assert(self@.take(n as int) =~= self@);
        }
        out
    }
}

} // verus!
