//! An insertion-ordered association table keyed by strings.
//!
//! The ledger keeps several string-keyed maps: accounts, games, and
//! the per-token platform reserves.  This module provides the one
//! container behind them.  Its mathematical model is the map `self@`
//! from key views (`Seq<char>`) to values, together with the
//! insertion-ordered key sequence `self.keys()`, which backs
//! index-based reads.

use vstd::prelude::*;

verus! {

/// A table from string keys to values of type `V`, remembering
/// insertion order.  Keys are unique; writing to a present key
/// replaces its value in place, so the order of `keys()` is stable.
pub struct Table<V> {
    entries: Vec<(String, V)>,
}

impl<V> View for Table<V> {
    type V = Map<Seq<char>, V>;

    closed spec fn view(&self) -> Map<Seq<char>, V> {
        Table::<V>::map_of(self.entries@)
    }
}

impl<V> Table<V> {
    /// The map described by a sequence of entries; later entries win.
    closed spec fn map_of(s: Seq<(String, V)>) -> Map<Seq<char>, V>
        decreases s.len(),
    {
        if s.len() == 0 {
            Map::empty()
        } else {
            Self::map_of(s.drop_last()).insert(s.last().0@, s.last().1)
        }
    }

    /// No two entries share a key.
    closed spec fn unique_keys(s: Seq<(String, V)>) -> bool {
        forall|i: int, j: int| 0 <= i < j < s.len() ==> s[i].0@ != s[j].0@
    }

    #[verifier::type_invariant]
    closed spec fn inv(&self) -> bool {
        Self::unique_keys(self.entries@)
    }

    /// The key views, in insertion order.
    pub closed spec fn keys(&self) -> Seq<Seq<char>> {
        self.entries@.map_values(|p: (String, V)| p.0@)
    }

    proof fn lemma_unique_drop_last(s: Seq<(String, V)>)
        requires
            Self::unique_keys(s),
            s.len() > 0,
        ensures
            Self::unique_keys(s.drop_last()),
    {
        assert forall|i: int, j: int|
            0 <= i < j < s.drop_last().len() implies s.drop_last()[i].0@
            != s.drop_last()[j].0@ by {
            assert(s.drop_last()[i] == s[i]);
            assert(s.drop_last()[j] == s[j]);
        }
    }

    proof fn lemma_contains(s: Seq<(String, V)>, k: Seq<char>)
        ensures
            Self::map_of(s).contains_key(k) <==> (exists|i: int|
                0 <= i < s.len() && s[i].0@ == k),
        decreases s.len(),
    {
        if s.len() > 0 {
            Self::lemma_contains(s.drop_last(), k);
            if s.last().0@ == k {
                assert(s[s.len() - 1].0@ == k);
            } else {
                if Self::map_of(s).contains_key(k) {
                    let i = choose|i: int|
                        0 <= i < s.drop_last().len() && s.drop_last()[i].0@ == k;
                    assert(s[i].0@ == k);
                }
                if exists|i: int| 0 <= i < s.len() && s[i].0@ == k {
                    let i = choose|i: int| 0 <= i < s.len() && s[i].0@ == k;
                    assert(i < s.len() - 1);
                    assert(s.drop_last()[i].0@ == k);
                }
            }
        }
    }

    proof fn lemma_index(s: Seq<(String, V)>, i: int)
        requires
            Self::unique_keys(s),
            0 <= i < s.len(),
        ensures
            Self::map_of(s).contains_key(s[i].0@),
            Self::map_of(s)[s[i].0@] == s[i].1,
        decreases s.len(),
    {
        if i == s.len() - 1 {
        } else {
            Self::lemma_unique_drop_last(s);
            Self::lemma_index(s.drop_last(), i);
            assert(s.drop_last()[i] == s[i]);
            assert(s.last().0@ != s[i].0@);
        }
    }

    proof fn lemma_update(s: Seq<(String, V)>, i: int, p: (String, V))
        requires
            Self::unique_keys(s),
            0 <= i < s.len(),
            p.0@ == s[i].0@,
        ensures
            Self::map_of(s.update(i, p)) == Self::map_of(s).insert(p.0@, p.1),
            Self::unique_keys(s.update(i, p)),
            s.update(i, p).map_values(|q: (String, V)| q.0@) == s.map_values(
                |q: (String, V)| q.0@,
            ),
        decreases s.len(),
    {
        let t = s.update(i, p);
        assert(t.map_values(|q: (String, V)| q.0@) =~= s.map_values(|q: (String, V)| q.0@));
        if i == s.len() - 1 {
            assert(t.drop_last() =~= s.drop_last());
            assert(t.last() == p);
            assert(Self::map_of(t) == Self::map_of(s.drop_last()).insert(p.0@, p.1));
            assert(Self::map_of(s).insert(p.0@, p.1) =~= Self::map_of(s.drop_last()).insert(
                p.0@,
                p.1,
            ));
        } else {
            Self::lemma_unique_drop_last(s);
            assert(t.drop_last() =~= s.drop_last().update(i, p));
            Self::lemma_update(s.drop_last(), i, p);
            assert(t.last() == s.last());
            assert(s.last().0@ != p.0@);
            assert(Self::map_of(t) == Self::map_of(s.drop_last()).insert(p.0@, p.1).insert(
                s.last().0@,
                s.last().1,
            ));
            assert(Self::map_of(t) =~= Self::map_of(s).insert(p.0@, p.1));
        }
    }

    proof fn lemma_remove(s: Seq<(String, V)>, i: int)
        requires
            Self::unique_keys(s),
            0 <= i < s.len(),
        ensures
            Self::map_of(s.remove(i)) == Self::map_of(s).remove(s[i].0@),
            Self::unique_keys(s.remove(i)),
        decreases s.len(),
    {
        let t = s.remove(i);
        assert forall|x: int, y: int| 0 <= x < y < t.len() implies t[x].0@ != t[y].0@ by {
            if x < i {
                assert(t[x] == s[x]);
            } else {
                assert(t[x] == s[x + 1]);
            }
            if y < i {
                assert(t[y] == s[y]);
            } else {
                assert(t[y] == s[y + 1]);
            }
        }
        if i == s.len() - 1 {
            assert(t =~= s.drop_last());
            Self::lemma_contains(s.drop_last(), s[i].0@);
            assert forall|x: int| 0 <= x < s.drop_last().len() implies s.drop_last()[x].0@
                != s[i].0@ by {
                assert(s.drop_last()[x] == s[x]);
            }
            assert(!Self::map_of(s.drop_last()).contains_key(s[i].0@));
            assert(Self::map_of(s).remove(s[i].0@) =~= Self::map_of(s.drop_last()));
        } else {
            Self::lemma_unique_drop_last(s);
            assert(t.drop_last() =~= s.drop_last().remove(i));
            Self::lemma_remove(s.drop_last(), i);
            assert(t.last() == s.last());
            assert(s.last().0@ != s[i].0@);
            assert(s.drop_last()[i] == s[i]);
            assert(Self::map_of(t) == Self::map_of(s.drop_last()).remove(s[i].0@).insert(
                s.last().0@,
                s.last().1,
            ));
            assert(Self::map_of(t) =~= Self::map_of(s).remove(s[i].0@));
        }
    }

    proof fn lemma_push(s: Seq<(String, V)>, p: (String, V))
        requires
            Self::unique_keys(s),
            forall|i: int| 0 <= i < s.len() ==> s[i].0@ != p.0@,
        ensures
            Self::map_of(s.push(p)) == Self::map_of(s).insert(p.0@, p.1),
            Self::unique_keys(s.push(p)),
            s.push(p).map_values(|q: (String, V)| q.0@) == s.map_values(
                |q: (String, V)| q.0@,
            ).push(p.0@),
    {
        let t = s.push(p);
        assert(t.drop_last() =~= s);
        assert(t.last() == p);
        assert(t.map_values(|q: (String, V)| q.0@) =~= s.map_values(
            |q: (String, V)| q.0@,
        ).push(p.0@));
        assert forall|x: int, y: int| 0 <= x < y < t.len() implies t[x].0@ != t[y].0@ by {
            if y < s.len() {
                assert(t[x] == s[x]);
                assert(t[y] == s[y]);
            } else {
                assert(t[x] == s[x]);
                assert(t[y] == p);
            }
        }
    }

    /// An empty table.
    pub fn new() -> (t: Self)
        ensures
            t@ == Map::<Seq<char>, V>::empty(),
            t.keys() == Seq::<Seq<char>>::empty(),
    {
        let t = Table { entries: Vec::new() };
        proof {
            assert(t.keys() =~= Seq::<Seq<char>>::empty());
        }
        t
    }

    /// How many entries the table holds.
    pub fn len(&self) -> (n: usize)
        ensures
            n == self.keys().len(),
    {
        self.entries.len()
    }

    fn index_of_key(&self, k: &String) -> (r: Option<usize>)
        ensures
            match r {
                Some(i) => i < self.keys().len() && self.keys()[i as int] == k@
                    && self@.contains_key(k@) && self@[k@] == self.entries@[i as int].1,
                None => !self@.contains_key(k@) && (forall|j: int|
                    0 <= j < self.keys().len() ==> self.keys()[j] != k@),
            },
    {
        proof {
            use_type_invariant(self);
        }
        let n = self.entries.len();
        let mut i: usize = 0;
        while i < n
            invariant
                n == self.entries@.len(),
                i <= n,
                Self::unique_keys(self.entries@),
                forall|j: int| 0 <= j < i ==> self.entries@[j].0@ != k@,
            decreases n - i,
        {
            if self.entries[i].0 == *k {
                proof {
                    Self::lemma_index(self.entries@, i as int);
                }
                return Some(i);
            }
            i = i + 1;
        }
        proof {
            Self::lemma_contains(self.entries@, k@);
        }
        None
    }

    /// Whether the table holds the key.
    pub fn contains(&self, k: &String) -> (b: bool)
        ensures
            b == self@.contains_key(k@),
    {
        match self.index_of_key(k) {
            Some(_) => true,
            None => false,
        }
    }

    /// The value under the key, if present.
    pub fn get(&self, k: &String) -> (r: Option<&V>)
        ensures
            match r {
                Some(v) => self@.contains_key(k@) && *v == self@[k@],
                None => !self@.contains_key(k@),
            },
    {
        match self.index_of_key(k) {
            Some(i) => Some(&self.entries[i].1),
            None => None,
        }
    }

    /// Writes the value under the key: replaces in place if the key is
    /// present, appends otherwise.
    pub fn set(&mut self, k: &String, v: V)
        ensures
            final(self)@ == old(self)@.insert(k@, v),
            old(self)@.contains_key(k@) ==> final(self).keys() == old(self).keys(),
            !old(self)@.contains_key(k@) ==> final(self).keys() == old(self).keys().push(k@),
    {
        proof {
            use_type_invariant(&*self);
        }
        let ghost s0 = self.entries@;
        let found = self.index_of_key(k);
        let mut es: Vec<(String, V)> = Vec::new();
        core::mem::swap(&mut es, &mut self.entries);
        match found {
            Some(i) => {
                let pair = es.remove(i);
                es.insert(i, (pair.0, v));
                proof {
                    assert(es@ =~= s0.update(i as int, es@[i as int]));
                    assert(es@[i as int].0 == s0[i as int].0);
                    Self::lemma_update(s0, i as int, es@[i as int]);
                }
            },
            None => {
                let key = k.clone();
                es.push((key, v));
                proof {
                    assert forall|j: int| 0 <= j < s0.len() implies s0[j].0@ != k@ by {
                        assert(old(self).keys()[j] == s0[j].0@);
                    }
                    Self::lemma_push(s0, es@.last());
                }
            },
        }
        self.entries = es;
    }

    /// Removes the key and hands its value out.
    pub fn take(&mut self, k: &String) -> (r: Option<V>)
        ensures
            match r {
                Some(v) => old(self)@.contains_key(k@) && v == old(self)@[k@] && final(self)@
                    == old(self)@.remove(k@),
                None => !old(self)@.contains_key(k@) && *final(self) == *old(self),
            },
    {
        proof {
            use_type_invariant(&*self);
        }
        let ghost s0 = self.entries@;
        let found = self.index_of_key(k);
        match found {
            Some(i) => {
                let mut es: Vec<(String, V)> = Vec::new();
                core::mem::swap(&mut es, &mut self.entries);
                let pair = es.remove(i);
                proof {
                    Self::lemma_index(s0, i as int);
                    Self::lemma_remove(s0, i as int);
                }
                self.entries = es;
                Some(pair.1)
            },
            None => None,
        }
    }

    /// The key stored at the given insertion index.
    pub fn key_at(&self, i: usize) -> (k: &String)
        requires
            i < self.keys().len(),
        ensures
            k@ == self.keys()[i as int],
            self@.contains_key(k@),
    {
        proof {
            use_type_invariant(self);
            Self::lemma_index(self.entries@, i as int);
        }
        &self.entries[i].0
    }
}

impl<V: Copy> Table<V> {
    /// An independent copy of a table of plain values.
    pub fn duplicate(&self) -> (t: Self)
        ensures
            t@ == self@,
            t.keys() == self.keys(),
    {
        proof {
            use_type_invariant(self);
        }
        let n = self.entries.len();
        let mut es: Vec<(String, V)> = Vec::new();
        let mut i: usize = 0;
        while i < n
            invariant
                n == self.entries@.len(),
                i <= n,
                es@.len() == i,
                forall|j: int| 0 <= j < i ==> es@[j].0@ == self.entries@[j].0@ && es@[j].1
                    == self.entries@[j].1,
            decreases n - i,
        {
            let key = self.entries[i].0.clone();
            let val = self.entries[i].1;
            es.push((key, val));
            i = i + 1;
        }
        let t = Table { entries: es };
        proof {
            use_type_invariant(self);
            assert forall|x: int, y: int| 0 <= x < y < es@.len() implies es@[x].0@
                != es@[y].0@ by {
                assert(self.entries@[x].0@ != self.entries@[y].0@);
            }
            Self::lemma_map_like(self.entries@, es@);
            assert(t.keys() =~= self.keys());
        }
        t
    }

    proof fn lemma_map_like(a: Seq<(String, V)>, b: Seq<(String, V)>)
        requires
            a.len() == b.len(),
            forall|j: int| 0 <= j < a.len() ==> b[j].0@ == a[j].0@ && b[j].1 == a[j].1,
        ensures
            Self::map_of(a) == Self::map_of(b),
        decreases a.len(),
    {
        if a.len() > 0 {
            assert forall|j: int| 0 <= j < a.drop_last().len() implies b.drop_last()[j].0@
                == a.drop_last()[j].0@ && b.drop_last()[j].1 == a.drop_last()[j].1 by {
                assert(a.drop_last()[j] == a[j]);
                assert(b.drop_last()[j] == b[j]);
            }
            Self::lemma_map_like(a.drop_last(), b.drop_last());
            assert(Self::map_of(a) =~= Self::map_of(b));
        }
    }
}

} // verus!
