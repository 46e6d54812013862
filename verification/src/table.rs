//! Tables keyed by text.

use crate::duplicate::Duplicate;
use crate::text::same_text;
use vstd::prelude::*;

verus! {

/// The map that a list of pairs writes down; of several pairs with one key the last counts.
pub open spec fn pairs_map<T>(s: Seq<(Seq<char>, T)>) -> Map<Seq<char>, T>
    decreases s.len(),
{
    if s.len() == 0 {
        Map::empty()
    } else {
        pairs_map(s.drop_last()).insert(s.last().0, s.last().1)
    }
}

/// A table holds at most one value for each key.
#[derive(Debug)]
pub struct Table<V: DeepView> {
    entries: Vec<(String, V)>,
}

/// No key occurs twice.
pub open spec fn distinct_keys<T>(s: Seq<(Seq<char>, T)>) -> bool {
    forall|i: int, j: int| 0 <= i < j < s.len() ==> s[i].0 != s[j].0
}

/// What the map of a list of pairs holds.
pub proof fn lemma_pairs_map<T>(s: Seq<(Seq<char>, T)>)
    ensures
        forall|k: Seq<char>|
            #[trigger] pairs_map(s).contains_key(k) <==> exists|i: int|
                0 <= i < s.len() && #[trigger] s[i].0 == k,
        forall|i: int|
            0 <= i < s.len() && (forall|j: int| i < j < s.len() ==> s[j].0 != s[i].0)
                ==> pairs_map(s)[(#[trigger] s[i]).0] == s[i].1,
    decreases s.len(),
{
    if s.len() > 0 {
        let t = s.drop_last();
        lemma_pairs_map(t);
        assert forall|k: Seq<char>| #[trigger] pairs_map(s).contains_key(k) implies exists|i: int|
            0 <= i < s.len() && #[trigger] s[i].0 == k by {
            if k == s.last().0 {
                assert(s[s.len() - 1].0 == k);
            } else {
                assert(pairs_map(t).contains_key(k));
                let i = choose|i: int| 0 <= i < t.len() && #[trigger] t[i].0 == k;
                assert(s[i].0 == k);
            }
        }
        assert forall|k: Seq<char>|
            (exists|i: int| 0 <= i < s.len() && #[trigger] s[i].0 == k) implies #[trigger] pairs_map(
            s,
        ).contains_key(k) by {
            let i = choose|i: int| 0 <= i < s.len() && #[trigger] s[i].0 == k;
            if i < t.len() {
                assert(t[i].0 == k);
                assert(pairs_map(t).contains_key(k));
            }
        }
        assert forall|i: int|
            0 <= i < s.len() && (forall|j: int| i < j < s.len() ==> s[j].0 != s[i].0) implies pairs_map(
            s,
        )[(#[trigger] s[i]).0] == s[i].1 by {
            if i < t.len() {
                assert(t[i] == s[i]);
                assert(s[s.len() - 1].0 != s[i].0);
                assert forall|j: int| i < j < t.len() implies t[j].0 != t[i].0 by {
                    assert(s[j].0 != s[i].0);
                }
            }
        }
    }
}

spec fn entry_pairs<V: DeepView>(entries: Seq<(String, V)>) -> Seq<(Seq<char>, V::V)> {
    Seq::new(entries.len(), |i: int| (entries[i].0@, entries[i].1.deep_view()))
}

impl<V: DeepView> Table<V> {
    /// The pairs of the table, in the order in which their keys came.
    pub closed spec fn pairs(&self) -> Seq<(Seq<char>, V::V)> {
        entry_pairs(self.entries@)
    }

    #[verifier::type_invariant]
    spec fn well_formed(&self) -> bool {
        distinct_keys(self.pairs())
    }
}

impl<V: DeepView> View for Table<V> {
    type V = Map<Seq<char>, V::V>;

    open spec fn view(&self) -> Map<Seq<char>, V::V> {
        pairs_map(self.pairs())
    }
}

impl<V: DeepView> DeepView for Table<V> {
    type V = Map<Seq<char>, V::V>;

    open spec fn deep_view(&self) -> Map<Seq<char>, V::V> {
        self@
    }
}

impl<V: DeepView> Table<V> {
    /// The empty table.
    pub fn new() -> (r: Self)
        ensures
            r@ == Map::<Seq<char>, V::V>::empty(),
            r.pairs().len() == 0,
    {
        Table { entries: Vec::new() }
    }

    fn position(&self, key: &str) -> (r: Option<usize>)
        ensures
            match r {
                Some(i) => i < self.pairs().len() && self.pairs()[i as int].0 == key@,
                None => forall|i: int|
                    0 <= i < self.pairs().len() ==> (#[trigger] self.pairs()[i]).0 != key@,
            },
    {
        for i in 0..self.entries.len()
            invariant
                forall|k: int| 0 <= k < i ==> (#[trigger] self.pairs()[k]).0 != key@,
        {
            if same_text(self.entries[i].0.as_str(), key) {
                return Some(i);
            }
        }
        None
    }

    /// How many keys the table holds.
    pub fn len(&self) -> (n: usize)
        ensures
            n == self.pairs().len(),
            distinct_keys(self.pairs()),
    {
        proof {
            use_type_invariant(self);
        }
        self.entries.len()
    }

    /// The key of the pair at position `i`.
    pub fn key_at(&self, i: usize) -> (k: &str)
        requires
            i < self.pairs().len(),
        ensures
            k@ == self.pairs()[i as int].0,
    {
        self.entries[i].0.as_str()
    }

    /// The value of the pair at position `i`.
    pub fn value_at(&self, i: usize) -> (v: &V)
        requires
            i < self.pairs().len(),
        ensures
            v.deep_view() == self.pairs()[i as int].1,
    {
        &self.entries[i].1
    }

    /// Whether the table holds nothing.
    pub fn is_empty(&self) -> (r: bool)
        ensures
            r == (self@ == Map::<Seq<char>, V::V>::empty()),
            r == (self.pairs().len() == 0),
    {
        proof {
            lemma_pairs_map(self.pairs());
            if self.pairs().len() > 0 {
                assert(self@.contains_key(self.pairs()[0].0));
            }
        }
        self.entries.len() == 0
    }

    /// The value for `key`, if there is one.
    pub fn get(&self, key: &str) -> (r: Option<&V>)
        ensures
            match r {
                Some(v) => self@.contains_key(key@) && v.deep_view() == self@[key@],
                None => !self@.contains_key(key@),
            },
    {
        proof {
            use_type_invariant(self);
            lemma_pairs_map(self.pairs());
        }
        match self.position(key) {
            Some(i) => {
                assert(self.pairs()[i as int].0 == key@);
                Some(&self.entries[i].1)
            },
            None => None,
        }
    }

    /// Whether the table holds a value for `key`.
    pub fn contains_key(&self, key: &str) -> (r: bool)
        ensures
            r == self@.contains_key(key@),
    {
        self.get(key).is_some()
    }

    /// Puts `value` under `key`; an earlier value of that key is dropped.
    pub fn insert(&mut self, key: String, value: V)
        ensures
            final(self)@ == old(self)@.insert(key@, value.deep_view()),
    {
        proof {
            use_type_invariant(&*self);
            lemma_pairs_map(self.pairs());
        }
        let ghost before = self.pairs();
        let ghost pair = (key@, value.deep_view());
        let found = self.position(key.as_str());
        let mut entries: Vec<(String, V)> = Vec::new();
        std::mem::swap(&mut entries, &mut self.entries);
        match found {
            Some(i) => {
                entries.set(i, (key, value));
                assert(entry_pairs(entries@) =~= before.update(i as int, pair));
                self.entries = entries;
                proof {
                    assert(self.pairs() =~= before.update(i as int, pair));
                    lemma_pairs_map(self.pairs());
                    assert(self.pairs()[i as int].0 == key@);
                    assert forall|k: Seq<char>|
                        self@.contains_key(k) == #[trigger] pairs_map(before).insert(
                            key@,
                            pair.1,
                        ).contains_key(k) by {
                        if self@.contains_key(k) && k != key@ {
                            let j = choose|j: int|
                                0 <= j < self.pairs().len() && #[trigger] self.pairs()[j].0 == k;
                            assert(before[j].0 == k);
                        }
                        if pairs_map(before).contains_key(k) {
                            let j = choose|j: int|
                                0 <= j < before.len() && #[trigger] before[j].0 == k;
                            assert(self.pairs()[j].0 == k);
                        }
                    }
                    assert forall|k: Seq<char>| self@.contains_key(k) implies #[trigger] self@[k]
                        == pairs_map(before).insert(key@, pair.1)[k] by {
                        let j = choose|j: int|
                            0 <= j < self.pairs().len() && #[trigger] self.pairs()[j].0 == k;
                        if j != i {
                            assert(before[j] == self.pairs()[j]);
                            assert(before[i as int].0 != before[j].0);
                        }
                    }
                    assert(self@ =~= pairs_map(before).insert(key@, pair.1));
                }
            },
            None => {
                entries.push((key, value));
                assert(entry_pairs(entries@) =~= before.push(pair));
                self.entries = entries;
                proof {
                    assert(self.pairs() =~= before.push(pair));
                    assert(before.push(pair).drop_last() =~= before);
                }
            },
        }
    }

    /// Takes the value of `key` out of the table.
    pub fn remove(&mut self, key: &str)
        ensures
            final(self)@ == old(self)@.remove(key@),
    {
        proof {
            use_type_invariant(&*self);
            lemma_pairs_map(self.pairs());
        }
        let ghost before = self.pairs();
        let found = self.position(key);
        match found {
            Some(i) => {
                let mut entries: Vec<(String, V)> = Vec::new();
                std::mem::swap(&mut entries, &mut self.entries);
                let _ = entries.remove(i);
                assert(entry_pairs(entries@) =~= before.remove(i as int));
                self.entries = entries;
                proof {
                    assert(self.pairs() =~= before.remove(i as int));
                    lemma_pairs_map(self.pairs());
                    assert forall|k: Seq<char>|
                        self@.contains_key(k) == #[trigger] pairs_map(before).remove(
                            key@,
                        ).contains_key(k) by {
                        if self@.contains_key(k) {
                            let j = choose|j: int|
                                0 <= j < self.pairs().len() && #[trigger] self.pairs()[j].0 == k;
                            let b: int = if j < i { j } else { j + 1 };
                            assert(before[b].0 == k);
                            assert(before[i as int].0 == key@);
                        }
                        if pairs_map(before).contains_key(k) && k != key@ {
                            let j = choose|j: int|
                                0 <= j < before.len() && #[trigger] before[j].0 == k;
                            let a: int = if j < i { j } else { j - 1 };
                            assert(self.pairs()[a].0 == k);
                        }
                    }
                    assert forall|k: Seq<char>| self@.contains_key(k) implies #[trigger] self@[k]
                        == pairs_map(before).remove(key@)[k] by {
                        let j = choose|j: int|
                            0 <= j < self.pairs().len() && #[trigger] self.pairs()[j].0 == k;
                        let b: int = if j < i { j } else { j + 1 };
                        assert(before[b] == self.pairs()[j]);
                        assert(pairs_map(before).remove(key@).contains_key(k));
                    }
                    assert(self@ =~= pairs_map(before).remove(key@));
                }
            },
            None => {
                assert(!self@.contains_key(key@));
                assert(self@.remove(key@) =~= self@);
            },
        }
    }

    /// The table that a list of pairs writes down; of several pairs with one key the last
    /// counts.
    pub fn from_pairs(pairs: Vec<(String, V)>) -> (r: Self)
        ensures
            r@ == pairs_map(pairs.deep_view()),
    {
        let mut r: Table<V> = Table::new();
        let ghost all = pairs.deep_view();
        let mut rest = pairs;
        let mut list: Vec<(String, V)> = Vec::new();
        // Reversed, so that the pairs can be taken from the end in their order.
        while rest.len() > 0
            invariant
                rest.len() + list.len() == all.len(),
                forall|k: int| 0 <= k < rest.len() ==> rest@[k].deep_view() == all[k],
                forall|k: int|
                    0 <= k < list.len() ==> list@[k].deep_view() == all[all.len() - 1 - k],
            decreases rest.len(),
        {
            if let Some(p) = rest.pop() {
                list.push(p);
            }
        }
        let ghost mut done: int = 0;
        assert(all.take(0) =~= Seq::empty());
        while list.len() > 0
            invariant
                0 <= done,
                done + list.len() == all.len(),
                forall|k: int|
                    0 <= k < list.len() ==> list@[k].deep_view() == all[all.len() - 1 - k],
                r@ == pairs_map(all.take(done)),
            decreases list.len(),
        {
            if let Some(p) = list.pop() {
                proof {
                    assert(p.deep_view() == all[done]);
                    assert(all.take(done + 1).drop_last() =~= all.take(done));
                    done = done + 1;
                }
                let (k, v) = p;
                r.insert(k, v);
            }
        }
        assert(all.take(done) =~= all);
        r
    }
}

impl<V: Duplicate> Duplicate for Table<V> {
    fn duplicate(&self) -> (r: Self)
        ensures
            r.pairs() == self.pairs(),
    {
        proof {
            use_type_invariant(self);
        }
        let mut entries: Vec<(String, V)> = Vec::new();
        for i in 0..self.entries.len()
            invariant
                entries.len() == i,
                forall|k: int|
                    0 <= k < i ==> (#[trigger] entries@[k]).0@ == self.entries@[k].0@
                        && entries@[k].1.deep_view() == self.entries@[k].1.deep_view(),
        {
            entries.push((self.entries[i].0.clone(), self.entries[i].1.duplicate()));
        }
        assert(entry_pairs(entries@) =~= self.pairs());
        Table { entries }
    }
}

impl<V: Duplicate> Clone for Table<V> {
    fn clone(&self) -> (r: Self)
        ensures
            r.pairs() == self.pairs(),
    {
        self.duplicate()
    }
}

} // verus!
