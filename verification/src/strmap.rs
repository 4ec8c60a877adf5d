//! A small map keyed by strings, used for SSA value tables and operation
//! attributes. Entries are kept in insertion order; inserting an existing key
//! replaces its value in place.
use crate::dialect::{same_attr, same_attrs, AttrValue};
use crate::text::str_eq;
use vstd::prelude::*;

verus! {

/// The map that a list of entries denotes: a later entry for a key overrides
/// an earlier one.
pub open spec fn entries_map<V>(s: Seq<(String, V)>) -> Map<Seq<char>, V>
    decreases s.len(),
{
    if s.len() == 0 {
        Map::empty()
    } else {
        entries_map(s.drop_last()).insert(s.last().0@, s.last().1)
    }
}

proof fn lemma_entries_absent<V>(s: Seq<(String, V)>, k: Seq<char>)
    requires
        forall|j: int| 0 <= j < s.len() ==> (#[trigger] s[j]).0@ != k,
    ensures
        !entries_map(s).contains_key(k),
    decreases s.len(),
{
    if s.len() > 0 {
        assert(s.last() == s[s.len() - 1]);
        assert forall|j: int| 0 <= j < s.drop_last().len() implies (#[trigger] s.drop_last()[j]).0@
            != k by {
            assert(s.drop_last()[j] == s[j]);
        }
        lemma_entries_absent(s.drop_last(), k);
    }
}

proof fn lemma_entries_lookup<V>(s: Seq<(String, V)>, i: int, k: Seq<char>)
    requires
        0 <= i < s.len(),
        s[i].0@ == k,
        forall|j: int| i < j < s.len() ==> (#[trigger] s[j]).0@ != k,
    ensures
        entries_map(s).contains_key(k),
        entries_map(s)[k] == s[i].1,
    decreases s.len(),
{
    if i < s.len() - 1 {
        assert(s.last() == s[s.len() - 1]);
        assert forall|j: int| i < j < s.drop_last().len() implies (#[trigger] s.drop_last()[j]).0@
            != k by {
            assert(s.drop_last()[j] == s[j]);
        }
        assert(s.drop_last()[i] == s[i]);
        lemma_entries_lookup(s.drop_last(), i, k);
    }
}

proof fn lemma_entries_update<V>(s: Seq<(String, V)>, i: int, e: (String, V))
    requires
        0 <= i < s.len(),
        s[i].0@ == e.0@,
        forall|j: int| i < j < s.len() ==> (#[trigger] s[j]).0@ != e.0@,
    ensures
        entries_map(s.update(i, e)) == entries_map(s).insert(e.0@, e.1),
    decreases s.len(),
{
    let u = s.update(i, e);
    if i == s.len() - 1 {
        assert(u.drop_last() =~= s.drop_last());
        assert(u.last() == e);
        assert(entries_map(u) =~= entries_map(s).insert(e.0@, e.1));
    } else {
        assert(u.drop_last() =~= s.drop_last().update(i, e));
        assert forall|j: int| i < j < s.drop_last().len() implies (#[trigger] s.drop_last()[j]).0@
            != e.0@ by {
            assert(s.drop_last()[j] == s[j]);
        }
        assert(s.drop_last()[i] == s[i]);
        lemma_entries_update(s.drop_last(), i, e);
        assert(u.last() == s.last());
        assert(s.last() == s[s.len() - 1]);
        assert(entries_map(u) =~= entries_map(s).insert(e.0@, e.1));
    }
}

/// Entry lists with the same keys and values of the same content denote
/// maps with the same keys and values of the same content.
proof fn lemma_entries_same_attrs(a: Seq<(String, AttrValue)>, b: Seq<(String, AttrValue)>)
    requires
        a.len() == b.len(),
        forall|j: int| 0 <= j < a.len() ==> (#[trigger] a[j]).0@ == b[j].0@ && same_attr(a[j].1, b[j].1),
    ensures
        same_attrs(entries_map(a), entries_map(b)),
    decreases a.len(),
{
    if a.len() > 0 {
        let (pa, pb) = (a.drop_last(), b.drop_last());
        assert forall|j: int| 0 <= j < pa.len() implies (#[trigger] pa[j]).0@ == pb[j].0@ && same_attr(
            pa[j].1,
            pb[j].1,
        ) by {
            assert(pa[j] == a[j] && pb[j] == b[j]);
        }
        lemma_entries_same_attrs(pa, pb);
        assert(a.last() == a[a.len() - 1] && b.last() == b[b.len() - 1]);
        let (ma, mb) = (entries_map(a), entries_map(b));
        assert(ma.dom() =~= mb.dom());
    }
}

impl StrMap<AttrValue> {
    /// A copy with the same keys and values of the same content.
    pub fn deep_copy(&self) -> (r: Self)
        ensures
            same_attrs(self@, r@),
    {
        let mut entries: Vec<(String, AttrValue)> = Vec::new();
        let mut i: usize = 0;
        while i < self.entries.len()
            invariant
                i <= self.entries@.len(),
                entries@.len() == i,
                forall|j: int|
                    0 <= j < i ==> (#[trigger] self.entries@[j]).0@ == entries@[j].0@ && same_attr(
                        self.entries@[j].1,
                        entries@[j].1,
                    ),
            decreases self.entries@.len() - i,
        {
            let key = self.entries[i].0.clone();
            let value = self.entries[i].1.deep_copy();
            entries.push((key, value));
            i = i + 1;
        }
        proof {
            lemma_entries_same_attrs(self.entries@, entries@);
        }
        StrMap { entries }
    }
}

/// A string-keyed map with insertion-ordered entries.
#[derive(Debug, Clone)]
pub struct StrMap<V> {
    entries: Vec<(String, V)>,
}

impl<V> View for StrMap<V> {
    type V = Map<Seq<char>, V>;

    closed spec fn view(&self) -> Map<Seq<char>, V> {
        entries_map(self.entries@)
    }
}

impl<V> StrMap<V> {
    /// An empty map.
    pub fn new() -> (m: Self)
        ensures
            m@ == Map::<Seq<char>, V>::empty(),
    {
        StrMap { entries: Vec::new() }
    }

    /// Index of the last entry for `key`, if any.
    fn find(&self, key: &str) -> (r: Option<usize>)
        ensures
            match r {
                Some(i) => i < self.entries@.len() && self.entries@[i as int].0@ == key@ && forall|
                    j: int,
                | i < j < self.entries@.len() ==> (#[trigger] self.entries@[j]).0@ != key@,
                None => forall|j: int|
                    0 <= j < self.entries@.len() ==> (#[trigger] self.entries@[j]).0@ != key@,
            },
    {
        let mut i: usize = self.entries.len();
        while i > 0
            invariant
                i <= self.entries@.len(),
                forall|j: int| i <= j < self.entries@.len() ==> (#[trigger] self.entries@[j]).0@
                    != key@,
            decreases i,
        {
            if str_eq(self.entries[i - 1].0.as_str(), key) {
                return Some(i - 1);
            }
            i = i - 1;
        }
        None
    }

    /// Whether `key` is present.
    pub fn contains_key(&self, key: &str) -> (r: bool)
        ensures
            r == self@.contains_key(key@),
    {
        match self.find(key) {
            Some(i) => {
                proof {
                    lemma_entries_lookup(self.entries@, i as int, key@);
                }
                true
            },
            None => {
                proof {
                    lemma_entries_absent(self.entries@, key@);
                }
                false
            },
        }
    }

    /// The value stored under `key`, if any.
    pub fn get(&self, key: &str) -> (r: Option<&V>)
        ensures
            match r {
                Some(v) => self@.contains_key(key@) && *v == self@[key@],
                None => !self@.contains_key(key@),
            },
    {
        match self.find(key) {
            Some(i) => {
                proof {
                    lemma_entries_lookup(self.entries@, i as int, key@);
                }
                Some(&self.entries[i].1)
            },
            None => {
                proof {
                    lemma_entries_absent(self.entries@, key@);
                }
                None
            },
        }
    }

    /// The entries, in insertion order; the map is what they denote.
    pub fn entries(&self) -> (r: &Vec<(String, V)>)
        ensures
            entries_map(r@) == self@,
    {
        &self.entries
    }

    /// Stores `value` under `key`, replacing any previous value.
    pub fn insert(&mut self, key: String, value: V)
        ensures
            final(self)@ == old(self)@.insert(key@, value),
    {
        match self.find(key.as_str()) {
            Some(i) => {
                proof {
                    lemma_entries_update(self.entries@, i as int, (key, value));
                }
                self.entries.set(i, (key, value));
            },
            None => {
                self.entries.push((key, value));
                proof {
                    assert(self.entries@.drop_last() =~= old(self).entries@);
                }
            },
        }
    }
}

} // verus!
