use vstd::prelude::*;

use crate::ast::Id;
use crate::text::text_eq;

verus! {

/// Two ids name the same function or type.
pub open spec fn same_id(a: Id, b: Id) -> bool {
    a.name@ == b.name@ && a.arity == b.arity
}

/// No id occurs twice.
pub open spec fn ids_unique(s: Seq<Id>) -> bool {
    forall|i: int, j: int| 0 <= i < j < s.len() ==> !same_id(#[trigger] s[i], #[trigger] s[j])
}

/// No key occurs twice.
pub open spec fn keys_unique<V>(s: Seq<(Id, V)>) -> bool {
    forall|i: int, j: int| 0 <= i < j < s.len() ==> !same_id(#[trigger] s[i].0, #[trigger] s[j].0)
}

/// No name occurs twice.
pub open spec fn names_unique<V>(s: Seq<(String, V)>) -> bool {
    forall|i: int, j: int| 0 <= i < j < s.len() ==> (#[trigger] s[i]).0@ != (#[trigger] s[j]).0@
}

/// The set `s` with `k` added, kept in order of first occurrence.
pub open spec fn set_insert(s: Seq<Id>, k: Id) -> Seq<Id> {
    if exists|i: int| 0 <= i < s.len() && same_id(s[i], k) {
        s
    } else {
        s.push(k)
    }
}

/// The set `s` with each of `ks` added, in order.
pub open spec fn insert_all(s: Seq<Id>, ks: Seq<Id>) -> Seq<Id>
    decreases ks.len(),
{
    if ks.len() == 0 {
        s
    } else {
        set_insert(insert_all(s, ks.drop_last()), ks.last())
    }
}

/// The map `s` with `k` bound to `v`: an existing binding of `k` is replaced in place.
pub open spec fn keyed_insert<V>(s: Seq<(Id, V)>, k: Id, v: V) -> Seq<(Id, V)> {
    if exists|i: int| 0 <= i < s.len() && same_id(s[i].0, k) {
        s.update(choose|i: int| 0 <= i < s.len() && same_id(s[i].0, k), (k, v))
    } else {
        s.push((k, v))
    }
}

/// The map `s` with each of `ks` bound to `v`, in order.
pub open spec fn keyed_insert_all<V>(s: Seq<(Id, V)>, ks: Seq<Id>, v: V) -> Seq<(Id, V)>
    decreases ks.len(),
{
    if ks.len() == 0 {
        s
    } else {
        keyed_insert(keyed_insert_all(s, ks.drop_last(), v), ks.last(), v)
    }
}

/// The map `s` with `name` bound to `v`: an existing binding is replaced in place.
pub open spec fn named_insert<V>(s: Seq<(String, V)>, name: String, v: V) -> Seq<(String, V)> {
    if exists|i: int| 0 <= i < s.len() && s[i].0@ == name@ {
        s.update(choose|i: int| 0 <= i < s.len() && s[i].0@ == name@, (name, v))
    } else {
        s.push((name, v))
    }
}

pub fn id_eq(a: &Id, b: &Id) -> (r: bool)
    ensures
        r == same_id(*a, *b),
{
    a.arity == b.arity && text_eq(a.name.as_str(), b.name.as_str())
}

pub fn copy_id(id: &Id) -> (r: Id)
    ensures
        r == *id,
{
    Id { name: id.name.clone(), arity: id.arity }
}

/// Adds `k` to the set `s`.
pub fn put_id(s: &mut Vec<Id>, k: Id)
    requires
        ids_unique(old(s)@),
    ensures
        final(s)@ == set_insert(old(s)@, k),
        ids_unique(final(s)@),
{
    let mut i: usize = 0;
    while i < s.len()
        invariant
            s@ == old(s)@,
            ids_unique(s@),
            i <= s@.len(),
            forall|j: int| 0 <= j < i ==> !same_id(#[trigger] s@[j], k),
        decreases s@.len() - i,
    {
        if id_eq(&s[i], &k) {
            return;
        }
        i = i + 1;
    }
    s.push(k);
    proof {
        let t = s@;
        assert forall|a: int, b: int| 0 <= a < b < t.len() implies !same_id(#[trigger] t[a], #[trigger] t[b]) by {
            if b == t.len() - 1 {
                assert(t[a] == old(s)@[a]);
            } else {
                assert(t[a] == old(s)@[a] && t[b] == old(s)@[b]);
            }
        }
    }
}

/// Adds each of `ks` to the set `s`, in order.
pub fn put_ids(s: &mut Vec<Id>, ks: &Vec<Id>)
    requires
        ids_unique(old(s)@),
    ensures
        final(s)@ == insert_all(old(s)@, ks@),
        ids_unique(final(s)@),
{
    let mut i: usize = 0;
    proof {
        assert(ks@.take(0) =~= Seq::<Id>::empty());
    }
    while i < ks.len()
        invariant
            i <= ks@.len(),
            ids_unique(s@),
            s@ == insert_all(old(s)@, ks@.take(i as int)),
        decreases ks@.len() - i,
    {
        proof {
            assert(ks@.take(i + 1).drop_last() =~= ks@.take(i as int));
        }
        put_id(s, copy_id(&ks[i]));
        i = i + 1;
    }
    proof {
        assert(ks@.take(i as int) =~= ks@);
    }
}

/// Binds `k` to `v` in the map `s`.
pub fn put_keyed<V>(s: &mut Vec<(Id, V)>, k: Id, v: V)
    requires
        keys_unique(old(s)@),
    ensures
        final(s)@ == keyed_insert(old(s)@, k, v),
        keys_unique(final(s)@),
{
    let mut i: usize = 0;
    while i < s.len()
        invariant
            s@ == old(s)@,
            keys_unique(s@),
            i <= s@.len(),
            forall|j: int| 0 <= j < i ==> !same_id(#[trigger] s@[j].0, k),
        decreases s@.len() - i,
    {
        if id_eq(&s[i].0, &k) {
            proof {
                let c = choose|c: int| 0 <= c < s@.len() && same_id(s@[c].0, k);
                if c != i {
                    if c < i {
                        assert(!same_id(s@[c].0, s@[i as int].0));
                    } else {
                        assert(!same_id(s@[i as int].0, s@[c].0));
                    }
                }
            }
            s.set(i, (k, v));
            proof {
                let t = s@;
                assert forall|a: int, b: int| 0 <= a < b < t.len() implies !same_id(
                    #[trigger] t[a].0,
                    #[trigger] t[b].0,
                ) by {
                    assert(!same_id(old(s)@[a].0, old(s)@[b].0));
                }
            }
            return;
        }
        i = i + 1;
    }
    s.push((k, v));
    proof {
        let t = s@;
        assert forall|a: int, b: int| 0 <= a < b < t.len() implies !same_id(#[trigger] t[a].0, #[trigger] t[b].0) by {
            if b == t.len() - 1 {
                assert(t[a] == old(s)@[a]);
            } else {
                assert(t[a] == old(s)@[a] && t[b] == old(s)@[b]);
            }
        }
    }
}

/// Binds each of `ks` to a copy of `v` in the map `s`, in order.
pub fn put_keyed_all(s: &mut Vec<(Id, String)>, ks: &Vec<Id>, v: &String)
    requires
        keys_unique(old(s)@),
    ensures
        final(s)@ == keyed_insert_all(old(s)@, ks@, *v),
        keys_unique(final(s)@),
{
    let mut i: usize = 0;
    proof {
        assert(ks@.take(0) =~= Seq::<Id>::empty());
    }
    while i < ks.len()
        invariant
            i <= ks@.len(),
            keys_unique(s@),
            s@ == keyed_insert_all(old(s)@, ks@.take(i as int), *v),
        decreases ks@.len() - i,
    {
        proof {
            assert(ks@.take(i + 1).drop_last() =~= ks@.take(i as int));
        }
        put_keyed(s, copy_id(&ks[i]), v.clone());
        i = i + 1;
    }
    proof {
        assert(ks@.take(i as int) =~= ks@);
    }
}

/// Binds `name` to `v` in the map `s`.
pub fn put_named<V>(s: &mut Vec<(String, V)>, name: String, v: V)
    requires
        names_unique(old(s)@),
    ensures
        final(s)@ == named_insert(old(s)@, name, v),
        names_unique(final(s)@),
{
    let mut i: usize = 0;
    while i < s.len()
        invariant
            s@ == old(s)@,
            names_unique(s@),
            i <= s@.len(),
            forall|j: int| 0 <= j < i ==> (#[trigger] s@[j]).0@ != name@,
        decreases s@.len() - i,
    {
        if text_eq(s[i].0.as_str(), name.as_str()) {
            proof {
                let c = choose|c: int| 0 <= c < s@.len() && s@[c].0@ == name@;
                if c != i {
                    if c < i {
                        assert(s@[c].0@ != s@[i as int].0@);
                    } else {
                        assert(s@[i as int].0@ != s@[c].0@);
                    }
                }
            }
            s.set(i, (name, v));
            proof {
                let t = s@;
                assert forall|a: int, b: int| 0 <= a < b < t.len() implies (#[trigger] t[a]).0@ != (
                #[trigger] t[b]).0@ by {
                    assert(old(s)@[a].0@ != old(s)@[b].0@);
                }
            }
            return;
        }
        i = i + 1;
    }
    s.push((name, v));
    proof {
        let t = s@;
        assert forall|a: int, b: int| 0 <= a < b < t.len() implies (#[trigger] t[a]).0@ != (#[trigger] t[b]).0@ by {
            if b == t.len() - 1 {
                assert(t[a] == old(s)@[a]);
            } else {
                assert(t[a] == old(s)@[a] && t[b] == old(s)@[b]);
            }
        }
    }
}

} // verus!
