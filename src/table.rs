use vstd::prelude::*;

verus! {

/// The map that a sequence of (name, value) entries stands for: a later entry
/// for a name replaces an earlier one.
pub open spec fn entries_map<V>(s: Seq<(String, V)>) -> Map<Seq<char>, V>
    decreases s.len(),
{
    if s.len() == 0 {
        Map::empty()
    } else {
        entries_map(s.drop_last()).insert(s.last().0@, s.last().1)
    }
}

/// No two entries carry the same name.
pub open spec fn keys_unique<V>(s: Seq<(String, V)>) -> bool {
    forall|i: int, j: int| 0 <= i < j < s.len() ==> s[i].0@ != s[j].0@
}

proof fn lemma_entries_map_update<V>(s: Seq<(String, V)>, i: int, e: (String, V))
    requires
        keys_unique(s),
        0 <= i < s.len(),
        s[i].0@ == e.0@,
    ensures
        entries_map(s.update(i, e)) == entries_map(s).insert(e.0@, e.1),
        keys_unique(s.update(i, e)),
    decreases s.len(),
{
    let t = s.update(i, e);
    if i == s.len() - 1 {
        assert(t.drop_last() =~= s.drop_last());
        assert(entries_map(t) =~= entries_map(s).insert(e.0@, e.1));
    } else {
        assert(t.drop_last() =~= s.drop_last().update(i, e));
        lemma_entries_map_update(s.drop_last(), i, e);
        assert(s.last().0@ != e.0@);
        assert(entries_map(t) =~= entries_map(s).insert(e.0@, e.1));
    }
}

/// A table from module names to values, in insertion order, one entry per name.
#[derive(Clone, Debug, PartialEq, Eq)]
pub struct ModuleTable<V> {
    pub entries: Vec<(String, V)>,
}

impl<V> ModuleTable<V> {
    pub open spec fn wf(&self) -> bool {
        keys_unique(self.entries@)
    }

    pub open spec fn view(&self) -> Map<Seq<char>, V> {
        entries_map(self.entries@)
    }

    pub fn new() -> (r: Self)
        ensures
            r.wf(),
            r.view() == Map::<Seq<char>, V>::empty(),
            r.entries@.len() == 0,
    {
        ModuleTable { entries: Vec::new() }
    }

    pub fn len(&self) -> (r: usize)
        ensures
            r == self.entries@.len(),
    {
        self.entries.len()
    }

    /// Sets the value for `key`, replacing the one it had.
    pub fn insert(&mut self, key: String, value: V)
        requires
            old(self).wf(),
        ensures
            final(self).wf(),
            final(self).view() == old(self).view().insert(key@, value),
    {
        let mut i: usize = 0;
        while i < self.entries.len()
            invariant
                self.entries@ == old(self).entries@,
                keys_unique(self.entries@),
                i <= self.entries@.len(),
                forall|j: int| 0 <= j < i ==> self.entries@[j].0@ != key@,
            decreases self.entries@.len() - i,
        {
            if self.entries[i].0 == key {
                proof {
                    lemma_entries_map_update(self.entries@, i as int, (key, value));
                }
                self.entries.set(i, (key, value));
                return;
            }
            i = i + 1;
        }
        proof {
            let s = self.entries@;
            assert(s.push((key, value)).drop_last() =~= s);
            assert forall|a: int, b: int| 0 <= a < b < s.len() + 1 implies
                s.push((key, value))[a].0@ != s.push((key, value))[b].0@ by {}
        }
        self.entries.push((key, value));
    }

    /// Adds every entry of `other`; where both have a name, `other`'s value stays.
    pub fn extend(&mut self, other: ModuleTable<V>)
        requires
            old(self).wf(),
            other.wf(),
        ensures
            final(self).wf(),
            final(self).view() == old(self).view().union_prefer_right(other.view()),
    {
        let ghost orig = other.entries@;
        let mut rest = other.entries;
        let total: usize = rest.len();
        let mut i: usize = 0;
        proof {
            assert(orig.take(0).len() == 0);
            assert(entries_map(orig.take(0)) =~= Map::<Seq<char>, V>::empty());
            assert(old(self).view().union_prefer_right(Map::<Seq<char>, V>::empty())
                =~= old(self).view());
            assert(rest@ =~= orig.subrange(0, orig.len() as int));
        }
        while rest.len() > 0
            invariant
                self.wf(),
                i <= orig.len(),
                orig.len() == total,
                rest@ == orig.subrange(i as int, orig.len() as int),
                self.view() == old(self).view().union_prefer_right(entries_map(orig.take(i as int))),
            decreases rest@.len(),
        {
            assert(i < orig.len());
            let (k, v) = rest.remove(0);
            proof {
                assert(orig[i as int] == (k, v));
                assert(orig.take(i + 1).drop_last() =~= orig.take(i as int));
                assert(orig.take(i + 1).last() == (k, v));
            }
            self.insert(k, v);
            proof {
                assert(self.view() =~= old(self).view().union_prefer_right(
                    entries_map(orig.take(i + 1))));
            }
            i = i + 1;
            proof {
                assert(rest@ =~= orig.subrange(i as int, orig.len() as int));
            }
        }
        proof {
            assert(orig.take(i as int) =~= orig);
        }
    }
}

} // verus!
