use vstd::prelude::*;

verus! {

broadcast use vstd::std_specs::vec::axiom_vec_index_decreases;

/// A generic structured document: objects, arrays and scalars.
/// A number is held as its literal text; an object as its entries in order.
#[derive(Debug, PartialEq)]
pub enum Doc {
    Null,
    Bool(bool),
    Number(String),
    Text(String),
    Array(Vec<Doc>),
    Object(Vec<(String, Doc)>),
}

/// The mathematical value of a document.
pub enum Val {
    Null,
    Bool(bool),
    Num(Seq<char>),
    Str(Seq<char>),
    Arr(Seq<Val>),
    Obj(Seq<(Seq<char>, Val)>),
}

impl Doc {
    pub open spec fn view(&self) -> Val
        decreases self,
    {
        match self {
            Doc::Null => Val::Null,
            Doc::Bool(b) => Val::Bool(*b),
            Doc::Number(n) => Val::Num(n@),
            Doc::Text(s) => Val::Str(s@),
            Doc::Array(items) => Val::Arr(
                Seq::new(items.len() as nat, |i: int| if 0 <= i < items.len() { items[i].view() } else { Val::Null }),
            ),
            Doc::Object(entries) => Val::Obj(
                Seq::new(entries.len() as nat, |i: int|
                    if 0 <= i < entries.len() {
                        (entries[i].0@, entries[i].1.view())
                    } else {
                        (Seq::empty(), Val::Null)
                    }),
            ),
        }
    }
}


/// The entries of an object value; any other value has none.
pub open spec fn entries_of(v: Val) -> Seq<(Seq<char>, Val)> {
    match v {
        Val::Obj(es) => es,
        _ => Seq::empty(),
    }
}

/// The mathematical entries of an object's stored entries.
pub open spec fn entries_view(es: Seq<(String, Doc)>) -> Seq<(Seq<char>, Val)> {
    Seq::new(es.len(), |i: int| (es[i].0@, es[i].1@))
}

/// The first index at or after `i` whose key is `k`, or -1.
pub open spec fn find_from(es: Seq<(Seq<char>, Val)>, k: Seq<char>, i: int) -> int
    decreases es.len() - i,
{
    if i < 0 || i >= es.len() {
        -1
    } else if es[i].0 == k {
        i
    } else {
        find_from(es, k, i + 1)
    }
}

/// The index of key `k` in `es`, or -1 when it is absent.
pub open spec fn find_key(es: Seq<(Seq<char>, Val)>, k: Seq<char>) -> int {
    find_from(es, k, 0)
}

/// The value stored under `k`, or null when it is absent.
pub open spec fn lookup(es: Seq<(Seq<char>, Val)>, k: Seq<char>) -> Val {
    if find_key(es, k) < 0 {
        Val::Null
    } else {
        es[find_key(es, k)].1
    }
}

/// `es` with the value under `k` set to `v`; a new key goes last.
pub open spec fn put(es: Seq<(Seq<char>, Val)>, k: Seq<char>, v: Val) -> Seq<(Seq<char>, Val)> {
    if find_key(es, k) < 0 {
        es.push((k, v))
    } else {
        es.update(find_key(es, k), (k, v))
    }
}

/// `es` without its entry for `k`.
pub open spec fn drop_key(es: Seq<(Seq<char>, Val)>, k: Seq<char>) -> Seq<(Seq<char>, Val)> {
    if find_key(es, k) < 0 {
        es
    } else {
        es.remove(find_key(es, k))
    }
}

/// The entries `es` after the first `n` entries of the overlay `ps` were applied:
/// a null removes its key, any other value is merged into the key's value.
pub open spec fn apply_entries(
    es: Seq<(Seq<char>, Val)>,
    ps: Seq<(Seq<char>, Val)>,
    n: nat,
) -> Seq<(Seq<char>, Val)>
    decreases ps, n,
{
    if n == 0 || n > ps.len() {
        es
    } else {
        let acc = apply_entries(es, ps, (n - 1) as nat);
        let k = ps[n - 1].0;
        let v = ps[n - 1].1;
        if v is Null {
            drop_key(acc, k)
        } else {
            put(acc, k, merged(lookup(acc, k), v))
        }
    }
}

/// JSON merge-patch: an object overlay is applied entry by entry onto the
/// target's entries (none when the target is no object); any other overlay
/// replaces the target.
pub open spec fn merged(target: Val, overlay: Val) -> Val
    decreases overlay, 0nat,
{
    match overlay {
        Val::Obj(ps) => Val::Obj(apply_entries(entries_of(target), ps, ps.len())),
        _ => overlay,
    }
}


/// What `find_from` returns: the first matching index at or after `i`, or -1
/// when no entry from `i` on has key `k`.
pub proof fn lemma_find_from(es: Seq<(Seq<char>, Val)>, k: Seq<char>, i: int)
    requires
        0 <= i,
    ensures
        find_from(es, k, i) == -1 || (i <= find_from(es, k, i) < es.len() && es[find_from(
            es,
            k,
            i,
        )].0 == k),
        forall|j: int| i <= j < es.len() && j < find_from(es, k, i) ==> es[j].0 != k,
        find_from(es, k, i) == -1 ==> forall|j: int| i <= j < es.len() ==> es[j].0 != k,
    decreases es.len() - i,
{
    if i < es.len() && es[i].0 != k {
        lemma_find_from(es, k, i + 1);
    }
}

impl Doc {
    /// A deep copy of the document.
    pub fn copy(&self) -> (r: Doc)
        ensures
            r@ == self@,
    {
        copy_doc(self)
    }
}

/// A deep copy of `d`, built entry by entry.
fn copy_doc(d: &Doc) -> (r: Doc)
    ensures
        r@ == d@,
    decreases d@,
{
    match d {
        Doc::Null => Doc::Null,
        Doc::Bool(b) => Doc::Bool(*b),
        Doc::Number(n) => Doc::Number(n.clone()),
        Doc::Text(t) => Doc::Text(t.clone()),
        Doc::Array(items) => {
            let mut out: Vec<Doc> = Vec::new();
            let mut i: usize = 0;
            while i < items.len()
                invariant
                    i <= items.len(),
                    d == Doc::Array(*items),
                    out.len() == i,
                    forall|j: int| 0 <= j < i ==> (#[trigger] out[j])@ == items[j]@,
                decreases items.len() - i,
            {
                let item = &items[i];
                proof {
                    assert(d@->Arr_0[i as int] == item@);
                    assert(decreases_to!(d@->Arr_0 => d@->Arr_0[i as int]));
                }
                let c = copy_doc(item);
                out.push(c);
                i += 1;
            }
            let r = Doc::Array(out);
            assert(r@ == d@) by {
                assert(r@->Arr_0 =~= d@->Arr_0);
            }
            r
        },
        Doc::Object(entries) => {
            let mut out: Vec<(String, Doc)> = Vec::new();
            let mut i: usize = 0;
            while i < entries.len()
                invariant
                    i <= entries.len(),
                    d == Doc::Object(*entries),
                    out.len() == i,
                    forall|j: int|
                        0 <= j < i ==> (#[trigger] out[j]).0@ == entries[j].0@ && out[j].1@
                            == entries[j].1@,
                decreases entries.len() - i,
            {
                let key = &entries[i].0;
                let value = &entries[i].1;
                proof {
                    assert(d@->Obj_0[i as int].1 == value@);
                    assert(decreases_to!(d@->Obj_0 => d@->Obj_0[i as int]));
                }
                let c = copy_doc(value);
                out.push((key.clone(), c));
                i += 1;
            }
            let r = Doc::Object(out);
            assert(r@ == d@) by {
                assert(r@->Obj_0 =~= d@->Obj_0);
            }
            r
        },
    }
}

/// The position of key `k` among the entries `es`.
fn find_entry(es: &Vec<(String, Doc)>, k: &String) -> (r: Option<usize>)
    ensures
        match r {
            Some(i) => i < es.len() && find_key(entries_view(es@), k@) == i,
            None => find_key(entries_view(es@), k@) == -1,
        },
{
    let ghost ev = entries_view(es@);
    let mut i: usize = 0;
    while i < es.len()
        invariant
            i <= es.len(),
            ev == entries_view(es@),
            find_from(ev, k@, 0) == find_from(ev, k@, i as int),
        decreases es.len() - i,
    {
        if es[i].0 == *k {
            return Some(i);
        }
        i += 1;
    }
    None
}

/// Merges `overlay` into `target` with JSON merge-patch semantics.
pub fn merge_value(target: Doc, overlay: &Doc) -> (r: Doc)
    ensures
        r@ == merged(target@, overlay@),
    decreases overlay,
{
    match overlay {
        Doc::Object(ps) => {
            let ghost t = target@;
            let ghost pv = entries_view(ps@);
            assert(overlay@ == Val::Obj(pv)) by {
                assert(overlay@->Obj_0 =~= pv);
            }
            let mut es: Vec<(String, Doc)> = match target {
                Doc::Object(es) => es,
                _ => Vec::new(),
            };
            assert(entries_view(es@) =~= entries_of(t));
            let mut j: usize = 0;
            while j < ps.len()
                invariant
                    j <= ps.len(),
                    pv == entries_view(ps@),
                    overlay@ == Val::Obj(pv),
                    overlay == Doc::Object(*ps),
                    entries_view(es@) == apply_entries(entries_of(t), pv, j as nat),
                decreases ps.len() - j,
            {
                let ghost acc = entries_view(es@);
                let k = &ps[j].0;
                let v = &ps[j].1;
                let found = find_entry(&es, k);
                match v {
                    Doc::Null => {
                        match found {
                            Some(i) => {
                                es.remove(i);
                                assert(entries_view(es@) =~= drop_key(acc, k@));
                            },
                            None => {},
                        }
                    },
                    _ => {
                        proof {
                            assert(decreases_to!(ps => ps[j as int]));
                        }
                        match found {
                            Some(i) => {
                                proof {
                                    lemma_find_from(acc, k@, 0);
                                }
                                let (key, old) = es.remove(i);
                                let new = merge_value(old, v);
                                es.insert(i, (key, new));
                                assert(entries_view(es@) =~= put(acc, k@, merged(lookup(acc, k@), v@)));
                            },
                            None => {
                                let new = merge_value(Doc::Null, v);
                                es.push((k.clone(), new));
                                assert(entries_view(es@) =~= put(acc, k@, merged(lookup(acc, k@), v@)));
                            },
                        }
                    },
                }
                j += 1;
            }
            let r = Doc::Object(es);
            assert(r@ =~= Val::Obj(entries_view(es@))) by {
                assert(r@->Obj_0 =~= entries_view(es@));
            }
            r
        },
        _ => overlay.copy(),
    }
}

/// Merges `overlay` into `base` in place with JSON merge-patch semantics.
pub fn merge_into(base: &mut Doc, overlay: &Doc)
    ensures
        final(base)@ == merged(old(base)@, overlay@),
{
    let mut target = Doc::Null;
    std::mem::swap(base, &mut target);
    *base = merge_value(target, overlay);
}

} // verus!
