use vstd::prelude::*;
use crate::doc::{Val, apply_entries, drop_key, entries_of, find_key, lookup, merged, put};
use crate::doc::lemma_find_from;

verus! {

/// No key occurs twice among the entries.
pub open spec fn unique_keys(es: Seq<(Seq<char>, Val)>) -> bool {
    forall|i: int, j: int|
        0 <= i < es.len() && 0 <= j < es.len() && i != j ==> es[i].0 != es[j].0
}

/// An object value whose keys are unique, as a parsed document's are.
pub open spec fn is_object(v: Val) -> bool {
    v is Obj && unique_keys(entries_of(v))
}

/// Whether the object value `v` has an entry for `k`.
pub open spec fn has_key(v: Val, k: Seq<char>) -> bool {
    find_key(entries_of(v), k) >= 0
}

/// The value of `v` under `k` (null when absent).
pub open spec fn get(v: Val, k: Seq<char>) -> Val {
    lookup(entries_of(v), k)
}

/// What an overlay does to the value under one key: an absent key keeps
/// `x`, a null removes it, anything else is merged into it.
pub open spec fn key_step(x: Val, overlay: Val, k: Seq<char>) -> Val {
    if !has_key(overlay, k) {
        x
    } else if get(overlay, k) is Null {
        Val::Null
    } else {
        merged(x, get(overlay, k))
    }
}

/// `find_key` is -1 exactly when no entry has the key, else an index of an
/// entry that has it; among unique keys, the only such index.
pub broadcast proof fn lemma_find_key(es: Seq<(Seq<char>, Val)>, k: Seq<char>)
    ensures
        #[trigger] find_key(es, k) == -1 <==> forall|i: int| 0 <= i < es.len() ==> es[i].0 != k,
        find_key(es, k) == -1 || (0 <= find_key(es, k) < es.len() && es[find_key(es, k)].0 == k),
        unique_keys(es) ==> forall|i: int|
            0 <= i < es.len() && es[i].0 == k ==> find_key(es, k) == i,
{
    lemma_find_from(es, k, 0);
}

proof fn lemma_put(es: Seq<(Seq<char>, Val)>, k: Seq<char>, v: Val, k2: Seq<char>)
    requires
        unique_keys(es),
    ensures
        unique_keys(put(es, k, v)),
        find_key(put(es, k, v), k) >= 0,
        lookup(put(es, k, v), k) == v,
        k2 != k ==> lookup(put(es, k, v), k2) == lookup(es, k2),
        k2 != k ==> (find_key(put(es, k, v), k2) < 0 <==> find_key(es, k2) < 0),
{
    broadcast use lemma_find_key;
    let r = put(es, k, v);
    assert(unique_keys(r));
    lemma_find_key(r, k);
    lemma_find_key(r, k2);
    lemma_find_key(es, k2);
    let idx = if find_key(es, k) < 0 {
        es.len() as int
    } else {
        find_key(es, k)
    };
    assert(r[idx].0 == k);
    if find_key(es, k2) >= 0 && k2 != k {
        assert(r[find_key(es, k2)].0 == k2);
    }
}

proof fn lemma_drop_key(es: Seq<(Seq<char>, Val)>, k: Seq<char>, k2: Seq<char>)
    requires
        unique_keys(es),
    ensures
        unique_keys(drop_key(es, k)),
        find_key(drop_key(es, k), k) < 0,
        k2 != k ==> lookup(drop_key(es, k), k2) == lookup(es, k2),
        k2 != k ==> (find_key(drop_key(es, k), k2) < 0 <==> find_key(es, k2) < 0),
{
    broadcast use lemma_find_key;
    let r = drop_key(es, k);
    let i = find_key(es, k);
    assert(unique_keys(r));
    lemma_find_key(r, k);
    lemma_find_key(r, k2);
    lemma_find_key(es, k2);
    if i >= 0 {
        assert forall|j: int| 0 <= j < r.len() implies r[j].0 != k by {
            if j < i {
                assert(r[j] == es[j]);
            } else {
                assert(r[j] == es[j + 1]);
            }
        }
        if find_key(es, k2) >= 0 && k2 != k {
            let j = find_key(es, k2);
            if j < i {
                assert(r[j].0 == k2);
            } else {
                assert(r[j - 1].0 == k2);
            }
        }
        if find_key(r, k2) >= 0 && k2 != k {
            let j = find_key(r, k2);
            if j < i {
                assert(es[j].0 == k2);
            } else {
                assert(es[j + 1].0 == k2);
            }
        }
    }
}


proof fn lemma_apply_entries(
    es: Seq<(Seq<char>, Val)>,
    ps: Seq<(Seq<char>, Val)>,
    n: nat,
    k: Seq<char>,
)
    requires
        unique_keys(es),
        unique_keys(ps),
        n <= ps.len(),
    ensures
        unique_keys(apply_entries(es, ps, n)),
        ({
            let r = apply_entries(es, ps, n);
            let m = find_key(ps, k);
            if m < 0 || m >= n {
                lookup(r, k) == lookup(es, k) && (find_key(r, k) < 0 <==> find_key(es, k) < 0)
            } else if ps[m].1 is Null {
                find_key(r, k) < 0 && lookup(r, k) == Val::Null
            } else {
                find_key(r, k) >= 0 && lookup(r, k) == merged(lookup(es, k), ps[m].1)
            }
        }),
    decreases n,
{
    broadcast use lemma_find_key;
    if n > 0 {
        lemma_apply_entries(es, ps, (n - 1) as nat, k);
        let acc = apply_entries(es, ps, (n - 1) as nat);
        let k2 = ps[n - 1].0;
        let v2 = ps[n - 1].1;
        lemma_find_key(ps, k);
        if v2 is Null {
            lemma_drop_key(acc, k2, k);
        } else {
            lemma_put(acc, k2, merged(lookup(acc, k2), v2), k);
        }
    }
}

/// What merging an object overlay does to the value under each key.
pub proof fn lemma_merged_key(target: Val, overlay: Val, k: Seq<char>)
    requires
        unique_keys(entries_of(target)),
        is_object(overlay),
    ensures
        unique_keys(entries_of(merged(target, overlay))),
        get(merged(target, overlay), k) == key_step(get(target, k), overlay, k),
        has_key(merged(target, overlay), k) == if has_key(overlay, k) {
            !(get(overlay, k) is Null)
        } else {
            has_key(target, k)
        },
{
    let ps = entries_of(overlay);
    lemma_apply_entries(entries_of(target), ps, ps.len(), k);
    lemma_find_key(ps, k);
}

/// A value with no null anywhere in it, whose objects have unique keys.
pub open spec fn null_free(v: Val) -> bool
    decreases v,
{
    match v {
        Val::Null => false,
        Val::Obj(ps) => unique_keys(ps) && forall|i: int|
            0 <= i < ps.len() ==> null_free(#[trigger] ps[i].1),
        _ => true,
    }
}

proof fn lemma_fresh_entries(ps: Seq<(Seq<char>, Val)>, n: nat)
    requires
        unique_keys(ps),
        n <= ps.len(),
        forall|i: int| 0 <= i < ps.len() ==> null_free(#[trigger] ps[i].1),
    ensures
        apply_entries(Seq::empty(), ps, n) == ps.subrange(0, n as int),
    decreases ps, n,
{
    broadcast use lemma_find_key;
    if n > 0 {
        lemma_fresh_entries(ps, (n - 1) as nat);
        let acc = apply_entries(Seq::empty(), ps, (n - 1) as nat);
        let k = ps[n - 1].0;
        let v = ps[n - 1].1;
        assert(null_free(v));
        assert(forall|i: int| 0 <= i < acc.len() ==> acc[i].0 != k);
        lemma_find_key(acc, k);
        assert(decreases_to!(ps => ps[n - 1]));
        lemma_fresh_value(v);
        assert(apply_entries(Seq::empty(), ps, n) =~= ps.subrange(0, n as int));
    }
}

/// Merging a null-free value into nothing gives that value back.
proof fn lemma_fresh_value(v: Val)
    requires
        null_free(v),
    ensures
        merged(Val::Null, v) == v,
    decreases v, 1nat,
{
    if let Val::Obj(ps) = v {
        lemma_fresh_entries(ps, ps.len());
        assert(ps.subrange(0, ps.len() as int) =~= ps);
    }
}

/// Merging an empty overlay into an object leaves it unchanged.
pub proof fn law_merge_empty_overlay(doc: Val)
    requires
        doc is Obj,
    ensures
        merged(doc, Val::Obj(Seq::empty())) == doc,
{
}

/// An overlay entry that is null removes its key from the result, whatever
/// the base held under it.
pub proof fn law_null_removes_key(base: Val, overlay: Val, k: Seq<char>)
    requires
        is_object(base),
        is_object(overlay),
        has_key(overlay, k),
        get(overlay, k) is Null,
    ensures
        !has_key(merged(base, overlay), k),
{
    lemma_merged_key(base, overlay, k);
}

/// Where the overlay holds a scalar or an array under a key, the result holds
/// exactly that value; where it holds an object and the base does not, the
/// base value contributes nothing, and an overlay object with no null in it
/// is taken as it is.
pub proof fn law_mismatch_replaces(base: Val, overlay: Val, k: Seq<char>)
    requires
        is_object(base),
        is_object(overlay),
        has_key(overlay, k),
    ensures
        !(get(overlay, k) is Obj) && !(get(overlay, k) is Null) ==> get(merged(base, overlay), k)
            == get(overlay, k),
        get(overlay, k) is Obj && !(get(base, k) is Obj) ==> get(merged(base, overlay), k)
            == merged(Val::Null, get(overlay, k)),
        get(overlay, k) is Obj && !(get(base, k) is Obj) && null_free(get(overlay, k)) ==> get(
            merged(base, overlay),
            k,
        ) == get(overlay, k),
{
    lemma_merged_key(base, overlay, k);
    if null_free(get(overlay, k)) {
        lemma_fresh_value(get(overlay, k));
    }
}

/// Merging `b` and then `c` into `a`: under every key, `c` takes precedence
/// over `b`, which takes precedence over `a`; where all three hold objects,
/// they merge recursively.
pub proof fn law_merge_sequence(a: Val, b: Val, c: Val, k: Seq<char>)
    requires
        is_object(a),
        is_object(b),
        is_object(c),
    ensures
        get(merged(merged(a, b), c), k) == key_step(key_step(get(a, k), b, k), c, k),
        has_key(c, k) && !(get(c, k) is Obj) && !(get(c, k) is Null) ==> get(
            merged(merged(a, b), c),
            k,
        ) == get(c, k),
        !has_key(c, k) && has_key(b, k) && !(get(b, k) is Obj) && !(get(b, k) is Null) ==> get(
            merged(merged(a, b), c),
            k,
        ) == get(b, k),
        !has_key(c, k) && !has_key(b, k) ==> get(merged(merged(a, b), c), k) == get(a, k)
            && has_key(merged(merged(a, b), c), k) == has_key(a, k),
        has_key(b, k) && has_key(c, k) && get(a, k) is Obj && get(b, k) is Obj && get(c, k) is Obj
            ==> get(merged(merged(a, b), c), k) == merged(
            merged(get(a, k), get(b, k)),
            get(c, k),
        ),
{
    lemma_merged_key(a, b, k);
    lemma_merged_key(merged(a, b), c, k);
}

} // verus!
