//! A set of strings backed by a vector, viewed as a `Set<Seq<char>>`.
//! Capability allowlists and the trusted-key store are built on it, so
//! membership, subset and union all carry exact contracts.

use vstd::prelude::*;
use crate::text::str_eq;

verus! {

pub struct StringSet {
    items: Vec<String>,
}

impl View for StringSet {
    type V = Set<Seq<char>>;

    closed spec fn view(&self) -> Set<Seq<char>> {
        Set::new(
            |x: Seq<char>|
                exists|i: int| 0 <= i < self.items@.len() && self.items@[i]@ == x,
        )
    }
}

impl StringSet {
    /// The empty set.
    pub fn new() -> (r: StringSet)
        ensures
            r@ == Set::<Seq<char>>::empty(),
    {
        let r = StringSet { items: Vec::new() };
        proof {
            assert(r@ =~= Set::<Seq<char>>::empty());
        }
        r
    }

    /// Membership test.
    pub fn contains(&self, s: &str) -> (r: bool)
        ensures
            r == self@.contains(s@),
    {
        let n = self.items.len();
        let mut i: usize = 0;
        while i < n
            invariant
                i <= n,
                n == self.items@.len(),
                forall|j: int| 0 <= j < i ==> self.items@[j]@ != s@,
            decreases n - i,
        {
            if str_eq(self.items[i].as_str(), s) {
                return true;
            }
            i += 1;
        }
        false
    }

    /// Inserts a string; the set absorbs duplicates.
    pub fn insert(&mut self, s: String)
        ensures
            final(self)@ == old(self)@.insert(s@),
    {
        if !self.contains(s.as_str()) {
            let ghost prev = self.items@;
            self.items.push(s);
            assert(self@ =~= old(self)@.insert(s@)) by {
                assert(forall|i: int|
                    0 <= i < prev.len() ==> self.items@[i]@ == prev[i]@);
                assert(self.items@[prev.len() as int]@ == s@);
            }
        } else {
            assert(self@ =~= old(self)@.insert(s@));
        }
    }

    /// Removes every occurrence of a string, reporting whether it was present.
    pub fn remove(&mut self, s: &str) -> (r: bool)
        ensures
            final(self)@ == old(self)@.remove(s@),
            r == old(self)@.contains(s@),
    {
        let found = self.contains(s);
        let ghost prev = self.items@;
        let n = self.items.len();
        let mut kept: Vec<String> = Vec::new();
        let mut i: usize = 0;
        while i < n
            invariant
                i <= n,
                n == self.items@.len(),
                self.items@ == prev,
                forall|j: int| 0 <= j < kept@.len() ==>
                    (#[trigger] kept@[j])@ != s@,
                forall|j: int| 0 <= j < kept@.len() ==> exists|k: int|
                    0 <= k < i && prev[k]@ == (#[trigger] kept@[j])@,
                forall|k: int| 0 <= k < i && (#[trigger] prev[k])@ != s@ ==>
                    exists|j: int| 0 <= j < kept@.len() && kept@[j]@ == prev[k]@,
            decreases n - i,
        {
            if !str_eq(self.items[i].as_str(), s) {
                let ghost kept_prev = kept@;
                kept.push(self.items[i].clone());
                assert forall|k: int|
                    0 <= k < i + 1 && (#[trigger] prev[k])@ != s@ implies exists|j: int|
                    0 <= j < kept@.len() && kept@[j]@ == prev[k]@ by {
                    if k < i {
                        let j = choose|j: int|
                            0 <= j < kept_prev.len() && kept_prev[j]@ == prev[k]@;
                        assert(kept@[j]@ == prev[k]@);
                    } else {
                        assert(kept@[kept_prev.len() as int]@ == prev[k]@);
                    }
                }
            }
            i += 1;
        }
        self.items = kept;
        proof {
            assert forall|x: Seq<char>| self@.contains(x) implies old(
                self,
            )@.remove(s@).contains(x) by {
                let j = choose|j: int|
                    0 <= j < self.items@.len() && self.items@[j]@ == x;
                let k = choose|k: int| 0 <= k < n && prev[k]@ == self.items@[j]@;
                assert(old(self)@.contains(x));
            }
            assert forall|x: Seq<char>| old(self)@.remove(s@).contains(x) implies self@.contains(
                x,
            ) by {
                let k = choose|k: int| 0 <= k < n && prev[k]@ == x;
                let j = choose|j: int|
                    0 <= j < self.items@.len() && self.items@[j]@ == prev[k]@;
                assert(self.items@[j]@ == x);
            }
            assert(self@ =~= old(self)@.remove(s@));
        }
        found
    }

    /// Subset test: every member of `self` is a member of `other`.
    pub fn is_subset(&self, other: &StringSet) -> (r: bool)
        ensures
            r == self@.subset_of(other@),
    {
        let n = self.items.len();
        let mut i: usize = 0;
        while i < n
            invariant
                i <= n,
                n == self.items@.len(),
                forall|j: int| 0 <= j < i ==> other@.contains(self.items@[j]@),
            decreases n - i,
        {
            if !other.contains(self.items[i].as_str()) {
                assert(self@.contains(self.items@[i as int]@));
                return false;
            }
            i += 1;
        }
        assert forall|x: Seq<char>| self@.contains(x) implies other@.contains(x) by {
            let j = choose|j: int| 0 <= j < self.items@.len() && self.items@[j]@ == x;
            assert(other@.contains(self.items@[j]@));
        }
        true
    }

    /// The union of two sets as a new set.
    pub fn union(&self, other: &StringSet) -> (r: StringSet)
        ensures
            r@ == self@.union(other@),
    {
        let mut r = self.duplicate();
        assert(r@ =~= self@.union(Set::new(
            |x: Seq<char>| exists|j: int| 0 <= j < 0 && other.items@[j]@ == x,
        )));
        let n = other.items.len();
        let mut i: usize = 0;
        while i < n
            invariant
                i <= n,
                n == other.items@.len(),
                r@ == self@.union(Set::new(
                    |x: Seq<char>| exists|j: int| 0 <= j < i && other.items@[j]@ == x,
                )),
            decreases n - i,
        {
            r.insert(other.items[i].clone());
            assert(r@ =~= self@.union(Set::new(
                |x: Seq<char>| exists|j: int| 0 <= j < i + 1 && other.items@[j]@ == x,
            )));
            i += 1;
        }
        assert(r@ =~= self@.union(other@));
        r
    }

    /// An equal set holding clones of the members.
    pub fn duplicate(&self) -> (r: StringSet)
        ensures
            r@ == self@,
    {
        let n = self.items.len();
        let mut items: Vec<String> = Vec::new();
        let mut i: usize = 0;
        while i < n
            invariant
                i <= n,
                n == self.items@.len(),
                items@.len() == i,
                forall|j: int| 0 <= j < i ==> items@[j]@ == self.items@[j]@,
            decreases n - i,
        {
            items.push(self.items[i].clone());
            i += 1;
        }
        let r = StringSet { items };
        proof {
            assert forall|x: Seq<char>| r@.contains(x) implies self@.contains(x) by {
                let j = choose|j: int| 0 <= j < r.items@.len() && r.items@[j]@ == x;
                assert(self.items@[j]@ == x);
            }
            assert forall|x: Seq<char>| self@.contains(x) implies r@.contains(x) by {
                let j = choose|j: int| 0 <= j < self.items@.len() && self.items@[j]@ == x;
                assert(r.items@[j]@ == x);
            }
            assert(r@ =~= self@);
        }
        r
    }

    /// Builds a set from a vector of strings; duplicates collapse.
    pub fn from_vec(v: Vec<String>) -> (r: StringSet)
        ensures
            r@ == v@.map_values(|s: String| s@).to_set(),
    {
        let n = v.len();
        let mut r = StringSet::new();
        assert(r@ =~= Set::new(
            |x: Seq<char>| exists|j: int| 0 <= j < 0 && v@[j]@ == x,
        ));
        let mut i: usize = 0;
        while i < n
            invariant
                i <= n,
                n == v@.len(),
                r@ == Set::new(
                    |x: Seq<char>| exists|j: int| 0 <= j < i && v@[j]@ == x,
                ),
            decreases n - i,
        {
            r.insert(v[i].clone());
            assert(r@ =~= Set::new(
                |x: Seq<char>| exists|j: int| 0 <= j < i + 1 && v@[j]@ == x,
            ));
            i += 1;
        }
        proof {
            let m = v@.map_values(|s: String| s@);
            assert forall|x: Seq<char>| r@.contains(x) implies m.to_set().contains(x) by {
                let j = choose|j: int| 0 <= j < v@.len() && v@[j]@ == x;
                assert(m[j] == x);
            }
            assert forall|x: Seq<char>| m.to_set().contains(x) implies r@.contains(x) by {
                let j = choose|j: int| 0 <= j < m.len() && m[j] == x;
                assert(v@[j]@ == x);
            }
            assert(r@ =~= m.to_set());
        }
        r
    }

    /// The members as a vector of clones; every member occurs, and every
    /// entry is a member.
    pub fn to_vec(&self) -> (r: Vec<String>)
        ensures
            forall|i: int| 0 <= i < r@.len() ==> self@.contains((#[trigger] r@[i])@),
            forall|x: Seq<char>| self@.contains(x) ==> exists|i: int|
                0 <= i < r@.len() && (#[trigger] r@[i])@ == x,
    {
        let n = self.items.len();
        let mut r: Vec<String> = Vec::new();
        let mut i: usize = 0;
        while i < n
            invariant
                i <= n,
                n == self.items@.len(),
                r@.len() == i,
                forall|j: int| 0 <= j < i ==> r@[j]@ == self.items@[j]@,
            decreases n - i,
        {
            r.push(self.items[i].clone());
            i += 1;
        }
        proof {
            assert forall|k: int| 0 <= k < r@.len() implies self@.contains(
                (#[trigger] r@[k])@,
            ) by {
                assert(self.items@[k]@ == r@[k]@);
            }
            assert forall|x: Seq<char>| self@.contains(x) implies exists|k: int|
                0 <= k < r@.len() && (#[trigger] r@[k])@ == x by {
                let j = choose|j: int| 0 <= j < self.items@.len() && self.items@[j]@ == x;
                assert(r@[j]@ == x);
            }
        }
        r
    }

    /// True when some member of the set is a prefix of `path`.
    pub fn some_prefix_of(&self, path: &str) -> (r: bool)
        ensures
            r == exists|p: Seq<char>|
                self@.contains(p) && crate::text::starts_with(path@, p),
    {
        let n = self.items.len();
        let mut i: usize = 0;
        while i < n
            invariant
                i <= n,
                n == self.items@.len(),
                forall|j: int| 0 <= j < i ==>
                    !crate::text::starts_with(path@, (#[trigger] self.items@[j])@),
            decreases n - i,
        {
            if crate::text::str_starts_with(path, self.items[i].as_str()) {
                assert(self@.contains(self.items@[i as int]@));
                return true;
            }
            i += 1;
        }
        proof {
            if exists|p: Seq<char>|
                self@.contains(p) && crate::text::starts_with(path@, p) {
                let p = choose|p: Seq<char>|
                    self@.contains(p) && crate::text::starts_with(path@, p);
                let j = choose|j: int|
                    0 <= j < self.items@.len() && self.items@[j]@ == p;
            }
        }
        false
    }

    /// True when the set has no members.
    pub fn is_empty(&self) -> (r: bool)
        ensures
            r == (self@ =~= Set::<Seq<char>>::empty()),
    {
        let r = self.items.is_empty();
        proof {
            if self.items@.len() == 0 {
                assert(self@ =~= Set::<Seq<char>>::empty());
            } else {
                assert(self@.contains(self.items@[0]@));
            }
        }
        r
    }
}

} // verus!
