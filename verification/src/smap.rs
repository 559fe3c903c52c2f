//! A map keyed by strings, backed by a vector of entries and viewed as a
//! `Map<Seq<char>, V>`. A later entry for a key shadows an earlier one, so
//! `insert` is a plain append; `remove` drops every entry for the key.

use vstd::prelude::*;
use crate::text::str_eq;

verus! {

pub struct StrMap<V> {
    entries: Vec<(String, V)>,
}

/// The map denoted by an entry sequence; later entries win.
pub closed spec fn entries_map<V>(s: Seq<(String, V)>) -> Map<Seq<char>, V>
    decreases s.len(),
{
    if s.len() == 0 {
        Map::empty()
    } else {
        entries_map(s.drop_last()).insert(s.last().0@, s.last().1)
    }
}

/// An entry sequence with every entry for key `k` dropped.
spec fn drop_key<V>(s: Seq<(String, V)>, k: Seq<char>) -> Seq<(String, V)>
    decreases s.len(),
{
    if s.len() == 0 {
        Seq::empty()
    } else {
        let rest = drop_key(s.drop_last(), k);
        if s.last().0@ == k {
            rest
        } else {
            rest.push(s.last())
        }
    }
}

proof fn lemma_absent_key<V>(s: Seq<(String, V)>, k: Seq<char>)
    requires
        forall|j: int| 0 <= j < s.len() ==> (#[trigger] s[j]).0@ != k,
    ensures
        !entries_map(s).contains_key(k),
    decreases s.len(),
{
    if s.len() > 0 {
        lemma_absent_key(s.drop_last(), k);
    }
}

proof fn lemma_present_key<V>(s: Seq<(String, V)>, k: Seq<char>, i: int)
    requires
        0 <= i < s.len(),
        s[i].0@ == k,
        forall|j: int| i < j < s.len() ==> (#[trigger] s[j]).0@ != k,
    ensures
        entries_map(s).contains_key(k),
        entries_map(s)[k] == s[i].1,
    decreases s.len(),
{
    if i < s.len() - 1 {
        lemma_present_key(s.drop_last(), k, i);
    }
}

proof fn lemma_drop_key<V>(s: Seq<(String, V)>, k: Seq<char>)
    ensures
        entries_map(drop_key(s, k)) == entries_map(s).remove(k),
    decreases s.len(),
{
    if s.len() == 0 {
        assert(entries_map(drop_key(s, k)) =~= entries_map(s).remove(k));
    } else {
        lemma_drop_key(s.drop_last(), k);
        if s.last().0@ == k {
            assert(entries_map(drop_key(s, k)) =~= entries_map(s).remove(k));
        } else {
            let rest = drop_key(s.drop_last(), k);
            assert(rest.push(s.last()).drop_last() =~= rest);
            assert(rest.push(s.last()).last() == s.last());
            assert(entries_map(drop_key(s, k)) =~= entries_map(s).remove(k));
        }
    }
}

impl<V> View for StrMap<V> {
    type V = Map<Seq<char>, V>;

    closed spec fn view(&self) -> Map<Seq<char>, V> {
        entries_map(self.entries@)
    }
}

impl<V> StrMap<V> {
    /// The empty map.
    pub fn new() -> (r: StrMap<V>)
        ensures
            r@ == Map::<Seq<char>, V>::empty(),
    {
        StrMap { entries: Vec::new() }
    }

    /// Looks a key up, returning the value bound to it.
    pub fn get(&self, k: &str) -> (r: Option<&V>)
        ensures
            match r {
                Some(v) => self@.contains_key(k@) && *v == self@[k@],
                None => !self@.contains_key(k@),
            },
    {
        let n = self.entries.len();
        let mut i: usize = n;
        while i > 0
            invariant
                i <= n,
                n == self.entries@.len(),
                forall|j: int| i <= j < n ==> (#[trigger] self.entries@[j]).0@ != k@,
            decreases i,
        {
            i -= 1;
            if str_eq(self.entries[i].0.as_str(), k) {
                proof {
                    lemma_present_key(self.entries@, k@, i as int);
                }
                return Some(&self.entries[i].1);
            }
        }
        proof {
            lemma_absent_key(self.entries@, k@);
        }
        None
    }

    /// True when the map binds the key.
    pub fn contains_key(&self, k: &str) -> (r: bool)
        ensures
            r == self@.contains_key(k@),
    {
        self.get(k).is_some()
    }

    /// Binds a key to a value, shadowing any earlier binding.
    pub fn insert(&mut self, k: String, v: V)
        ensures
            final(self)@ == old(self)@.insert(k@, v),
    {
        let ghost prev = self.entries@;
        self.entries.push((k, v));
        proof {
            assert(self.entries@.drop_last() =~= prev);
        }
    }

    /// Drops a key, reporting whether it was bound.
    pub fn remove(&mut self, k: &str) -> (r: bool)
        ensures
            final(self)@ == old(self)@.remove(k@),
            r == old(self)@.contains_key(k@),
    {
        let found = self.contains_key(k);
        let ghost prev = self.entries@;
        let ghost mut p: int = 0;
        let mut i: usize = 0;
        proof {
            assert(prev.take(0) =~= Seq::<(String, V)>::empty());
            assert(self.entries@ =~= drop_key(prev.take(0), k@) + prev.skip(0));
        }
        while i < self.entries.len()
            invariant
                0 <= p <= prev.len(),
                i == drop_key(prev.take(p), k@).len(),
                self.entries@ == drop_key(prev.take(p), k@) + prev.skip(p),
            decreases self.entries@.len() - i,
        {
            proof {
                assert(prev.take(p + 1).drop_last() =~= prev.take(p));
                assert(prev.take(p + 1).last() == prev[p]);
                assert(self.entries@[i as int] == prev.skip(p)[0]);
                assert(prev.skip(p)[0] == prev[p]);
            }
            if str_eq(self.entries[i].0.as_str(), k) {
                self.entries.remove(i);
                proof {
                    p = p + 1;
                    assert(self.entries@ =~= drop_key(prev.take(p), k@) + prev.skip(p));
                }
            } else {
                i += 1;
                proof {
                    p = p + 1;
                    assert(self.entries@ =~= drop_key(prev.take(p), k@) + prev.skip(p));
                }
            }
        }
        proof {
            assert(prev.skip(p).len() == 0);
            assert(p == prev.len());
            assert(prev.take(p) =~= prev);
            assert(self.entries@ =~= drop_key(prev, k@));
            lemma_drop_key(prev, k@);
        }
        found
    }

    /// Removes a key and hands back the value it was bound to.
    pub fn take(&mut self, k: &str) -> (r: Option<V>)
        ensures
            final(self)@ == old(self)@.remove(k@),
            match r {
                Some(v) => old(self)@.contains_key(k@) && v == old(self)@[k@],
                None => !old(self)@.contains_key(k@),
            },
    {
        let ghost prev = self.entries@;
        let ghost mut p: int = 0;
        let mut out: Option<V> = None;
        let mut i: usize = 0;
        proof {
            assert(prev.take(0) =~= Seq::<(String, V)>::empty());
            assert(self.entries@ =~= drop_key(prev.take(0), k@) + prev.skip(0));
            lemma_absent_key::<V>(prev.take(0), k@);
        }
        while i < self.entries.len()
            invariant
                0 <= p <= prev.len(),
                i == drop_key(prev.take(p), k@).len(),
                self.entries@ == drop_key(prev.take(p), k@) + prev.skip(p),
                match out {
                    Some(v) => entries_map(prev.take(p)).contains_key(k@) && v == entries_map(
                        prev.take(p),
                    )[k@],
                    None => !entries_map(prev.take(p)).contains_key(k@),
                },
            decreases self.entries@.len() - i,
        {
            proof {
                assert(prev.take(p + 1).drop_last() =~= prev.take(p));
                assert(prev.take(p + 1).last() == prev[p]);
                assert(self.entries@[i as int] == prev.skip(p)[0]);
                assert(prev.skip(p)[0] == prev[p]);
            }
            if str_eq(self.entries[i].0.as_str(), k) {
                let e = self.entries.remove(i);
                out = Some(e.1);
                proof {
                    p = p + 1;
                    assert(self.entries@ =~= drop_key(prev.take(p), k@) + prev.skip(p));
                }
            } else {
                i += 1;
                proof {
                    p = p + 1;
                    assert(self.entries@ =~= drop_key(prev.take(p), k@) + prev.skip(p));
                }
            }
        }
        proof {
            assert(prev.skip(p).len() == 0);
            assert(p == prev.len());
            assert(prev.take(p) =~= prev);
            assert(self.entries@ =~= drop_key(prev, k@));
            lemma_drop_key(prev, k@);
        }
        out
    }

    /// The number of stored entries; at least one per bound key.
    pub fn entry_count(&self) -> (r: usize)
        ensures
            r == self.spec_entry_count(),
    {
        self.entries.len()
    }

    /// The number of stored entries.
    pub closed spec fn spec_entry_count(&self) -> usize {
        self.entries@.len() as usize
    }

    /// The bound keys as a vector of clones; every bound key occurs, and
    /// every entry is bound.
    pub fn keys(&self) -> (r: Vec<String>)
        ensures
            forall|i: int| 0 <= i < r@.len() ==> self@.contains_key((#[trigger] r@[i])@),
            forall|x: Seq<char>| self@.contains_key(x) ==> exists|i: int|
                0 <= i < r@.len() && (#[trigger] r@[i])@ == x,
    {
        let n = self.entries.len();
        let mut r: Vec<String> = Vec::new();
        let mut i: usize = 0;
        while i < n
            invariant
                i <= n,
                n == self.entries@.len(),
                r@.len() == i,
                forall|j: int| 0 <= j < i ==> r@[j]@ == (#[trigger] self.entries@[j]).0@,
            decreases n - i,
        {
            r.push(self.entries[i].0.clone());
            i += 1;
        }
        proof {
            assert forall|j: int| 0 <= j < r@.len() implies self@.contains_key(
                (#[trigger] r@[j])@,
            ) by {
                lemma_key_occurs(self.entries@, j);
                assert(r@[j]@ == self.entries@[j].0@);
            }
            assert forall|x: Seq<char>| self@.contains_key(x) implies exists|j: int|
                0 <= j < r@.len() && (#[trigger] r@[j])@ == x by {
                lemma_dom_occurs(self.entries@, x);
                let j = choose|j: int|
                    0 <= j < self.entries@.len() && (#[trigger] self.entries@[j]).0@ == x;
                assert(r@[j]@ == x);
            }
        }
        r
    }
}

proof fn lemma_key_occurs<V>(s: Seq<(String, V)>, i: int)
    requires
        0 <= i < s.len(),
    ensures
        entries_map(s).contains_key(s[i].0@),
    decreases s.len(),
{
    if i < s.len() - 1 {
        lemma_key_occurs(s.drop_last(), i);
    }
}

proof fn lemma_dom_occurs<V>(s: Seq<(String, V)>, k: Seq<char>)
    requires
        entries_map(s).contains_key(k),
    ensures
        exists|j: int| 0 <= j < s.len() && (#[trigger] s[j]).0@ == k,
    decreases s.len(),
{
    if s.len() > 0 {
        if s.last().0@ == k {
            assert(s[s.len() - 1].0@ == k);
        } else {
            lemma_dom_occurs(s.drop_last(), k);
            let j = choose|j: int|
                0 <= j < s.drop_last().len() && (#[trigger] s.drop_last()[j]).0@ == k;
            assert(s[j].0@ == k);
        }
    }
}

} // verus!
