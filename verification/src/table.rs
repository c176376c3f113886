//! Keyed storage: an association list in which no key occurs twice, seen in
//! contracts as a map from the keys' values to what is stored under them.

use vstd::prelude::*;

verus! {

/// A key of a table: it has a mathematical value, and two keys can be
/// compared and copied by that value.
pub trait TableKey: View + Sized {
    /// Whether two keys have the same value.
    fn key_eq(&self, other: &Self) -> (r: bool)
        ensures
            r == (self@ == other@),
    ;

    /// A copy of the key.
    fn key_clone(&self) -> (r: Self)
        ensures
            r@ == self@,
    ;
}

impl TableKey for u32 {
    fn key_eq(&self, other: &Self) -> (r: bool) {
        *self == *other
    }

    fn key_clone(&self) -> (r: Self) {
        *self
    }
}

impl<A: TableKey, B: TableKey> TableKey for (A, B) {
    fn key_eq(&self, other: &Self) -> (r: bool) {
        self.0.key_eq(&other.0) && self.1.key_eq(&other.1)
    }

    fn key_clone(&self) -> (r: Self) {
        (self.0.key_clone(), self.1.key_clone())
    }
}

/// The sum of `weight` over the entries of a list.
spec fn total_of<K: TableKey, V>(
    entries: Seq<(K, V)>,
    weight: spec_fn(K::V, V) -> nat,
) -> nat
    decreases entries.len(),
{
    if entries.len() == 0 {
        0
    } else {
        total_of(entries.drop_last(), weight) + weight(entries.last().0@, entries.last().1)
    }
}

/// Replacing one entry of a list takes the entry's weight out of the sum and
/// puts the new entry's weight in.
proof fn lemma_total_update<K: TableKey, V>(
    entries: Seq<(K, V)>,
    i: int,
    entry: (K, V),
    weight: spec_fn(K::V, V) -> nat,
)
    requires
        0 <= i < entries.len(),
    ensures
        total_of(entries.update(i, entry), weight) + weight(entries[i].0@, entries[i].1)
            == total_of(entries, weight) + weight(entry.0@, entry.1),
    decreases entries.len(),
{
    let updated = entries.update(i, entry);
    if i == entries.len() - 1 {
        assert(updated.drop_last() =~= entries.drop_last());
    } else {
        lemma_total_update(entries.drop_last(), i, entry, weight);
        assert(updated.drop_last() =~= entries.drop_last().update(i, entry));
    }
}

/// The weight of each entry of a list is part of the sum.
proof fn lemma_total_bound<K: TableKey, V>(
    entries: Seq<(K, V)>,
    i: int,
    weight: spec_fn(K::V, V) -> nat,
)
    requires
        0 <= i < entries.len(),
    ensures
        weight(entries[i].0@, entries[i].1) <= total_of(entries, weight),
    decreases entries.len(),
{
    if i < entries.len() - 1 {
        lemma_total_bound(entries.drop_last(), i, weight);
    }
}

/// The weights of two entries of a list are together part of the sum.
proof fn lemma_total_bound_two<K: TableKey, V>(
    entries: Seq<(K, V)>,
    i: int,
    j: int,
    weight: spec_fn(K::V, V) -> nat,
)
    requires
        0 <= i < j < entries.len(),
    ensures
        weight(entries[i].0@, entries[i].1) + weight(entries[j].0@, entries[j].1) <= total_of(
            entries,
            weight,
        ),
    decreases entries.len(),
{
    if j < entries.len() - 1 {
        lemma_total_bound_two(entries.drop_last(), i, j, weight);
    } else {
        lemma_total_bound(entries.drop_last(), i, weight);
    }
}

/// Keyed storage of values of type `V` under keys of type `K`.
pub struct Table<K, V> {
    entries: Vec<(K, V)>,
}

impl<K: TableKey, V> Table<K, V> {
    /// Whether `i` is the place of the key with value `k`.
    spec fn holds_at(&self, k: K::V, i: int) -> bool {
        0 <= i < self.entries@.len() && self.entries@[i].0@ == k
    }

    /// No key occurs twice.
    pub closed spec fn wf(&self) -> bool {
        forall|i: int, j: int|
            0 <= i < j < self.entries@.len() ==> self.entries@[i].0@ != self.entries@[j].0@
    }

    /// The table as a map.
    pub closed spec fn view(&self) -> Map<K::V, V> {
        Map::new(
            |k: K::V| exists|i: int| self.holds_at(k, i),
            |k: K::V| self.entries@[choose|i: int| self.holds_at(k, i)].1,
        )
    }

    /// The sum of `weight` over everything that the table stores.
    pub closed spec fn total(&self, weight: spec_fn(K::V, V) -> nat) -> nat {
        total_of(self.entries@, weight)
    }

    /// What is stored under any one key weighs no more than everything
    /// together.
    pub proof fn lemma_total_covers(&self, k: K::V, weight: spec_fn(K::V, V) -> nat)
        requires
            self.wf(),
            self@.contains_key(k),
        ensures
            weight(k, self@[k]) <= self.total(weight),
    {
        let i = choose|i: int| self.holds_at(k, i);
        self.lemma_value_at(k, i);
        lemma_total_bound(self.entries@, i, weight);
    }

    /// What is stored under any two keys weighs together no more than
    /// everything together.
    pub proof fn lemma_total_covers_two(&self, k1: K::V, k2: K::V, weight: spec_fn(K::V, V) -> nat)
        requires
            self.wf(),
            self@.contains_key(k1),
            self@.contains_key(k2),
            k1 != k2,
        ensures
            weight(k1, self@[k1]) + weight(k2, self@[k2]) <= self.total(weight),
    {
        let i = choose|i: int| self.holds_at(k1, i);
        let j = choose|j: int| self.holds_at(k2, j);
        self.lemma_value_at(k1, i);
        self.lemma_value_at(k2, j);
        if i < j {
            lemma_total_bound_two(self.entries@, i, j, weight);
        } else {
            lemma_total_bound_two(self.entries@, j, i, weight);
        }
    }

    /// An empty table.
    pub fn new() -> (r: Self)
        ensures
            r.wf(),
            r@ == Map::<K::V, V>::empty(),
            forall|weight: spec_fn(K::V, V) -> nat| #[trigger] r.total(weight) == 0,
    {
        let r = Table { entries: Vec::new() };
        assert(r@ =~= Map::<K::V, V>::empty());
        r
    }

    /// The place of `key` in the list, if it is there.
    fn find(&self, key: &K) -> (r: Option<usize>)
        ensures
            match r {
                Some(i) => self.holds_at(key@, i as int),
                None => forall|i: int| !self.holds_at(key@, i),
            },
    {
        let mut i: usize = 0;
        while i < self.entries.len()
            invariant
                0 <= i <= self.entries@.len(),
                forall|j: int| 0 <= j < i ==> !self.holds_at(key@, j),
            decreases self.entries@.len() - i,
        {
            if self.entries[i].0.key_eq(key) {
                return Some(i);
            }
            i += 1;
        }
        None
    }

    /// What the map holds under a key that stands at place `i`.
    proof fn lemma_value_at(&self, k: K::V, i: int)
        requires
            self.wf(),
            self.holds_at(k, i),
        ensures
            self@.contains_key(k),
            self@[k] == self.entries@[i].1,
    {
        let c = choose|c: int| self.holds_at(k, c);
        assert(c == i);
    }

    /// What is stored under `key`, if anything.
    pub fn get(&self, key: &K) -> (r: Option<&V>)
        requires
            self.wf(),
        ensures
            match r {
                Some(v) => self@.contains_key(key@) && self@[key@] == *v,
                None => !self@.contains_key(key@),
            },
    {
        match self.find(key) {
            Some(i) => {
                proof {
                    self.lemma_value_at(key@, i as int);
                }
                Some(&self.entries[i].1)
            },
            None => None,
        }
    }

    /// Whether anything is stored under `key`.
    pub fn contains(&self, key: &K) -> (r: bool)
        requires
            self.wf(),
        ensures
            r == self@.contains_key(key@),
    {
        self.get(key).is_some()
    }

    /// Stores `value` under `key`, in place of what was stored there.
    pub fn set(&mut self, key: &K, value: V)
        requires
            old(self).wf(),
        ensures
            final(self).wf(),
            final(self)@ == old(self)@.insert(key@, value),
            forall|weight: spec_fn(K::V, V) -> nat| #[trigger]
                final(self).total(weight) + (if old(self)@.contains_key(key@) {
                    weight(key@, old(self)@[key@])
                } else {
                    0
                }) == old(self).total(weight) + weight(key@, value),
    {
        match self.find(key) {
            Some(i) => {
                let entry = (key.key_clone(), value);
                proof {
                    old(self).lemma_value_at(key@, i as int);
                    let before = old(self).entries@;
                    assert forall|weight: spec_fn(K::V, V) -> nat|
                        total_of(before.update(i as int, entry), weight) + weight(
                            key@,
                            old(self)@[key@],
                        ) == #[trigger] total_of(before, weight) + weight(key@, value) by {
                        lemma_total_update(before, i as int, entry, weight);
                    }
                }
                self.entries.set(i, entry);
                assert forall|k: K::V| #[trigger] self@.contains_key(k) <==> old(self)@.insert(
                    key@,
                    value,
                ).contains_key(k) by {
                    if old(self)@.contains_key(k) || k == key@ {
                        let c = if k == key@ {
                            i as int
                        } else {
                            choose|c: int| old(self).holds_at(k, c)
                        };
                        assert(self.holds_at(k, c));
                    }
                    if self@.contains_key(k) && k != key@ {
                        let c = choose|c: int| self.holds_at(k, c);
                        assert(old(self).holds_at(k, c));
                    }
                }
                assert forall|k: K::V| #[trigger] self@.contains_key(k) implies self@[k] == old(
                    self,
                )@.insert(key@, value)[k] by {
                    let c = choose|c: int| self.holds_at(k, c);
                    self.lemma_value_at(k, c);
                    if k != key@ {
                        assert(old(self).holds_at(k, c));
                        old(self).lemma_value_at(k, c);
                    }
                }
                assert(self@ =~= old(self)@.insert(key@, value));
            },
            None => {
                let entry = (key.key_clone(), value);
                self.entries.push(entry);
                let ghost n = old(self).entries@.len() as int;
                assert(self.entries@.drop_last() =~= old(self).entries@);
                assert(self.holds_at(key@, n));
                assert(self.wf()) by {
                    assert forall|i: int, j: int|
                        0 <= i < j < self.entries@.len() implies self.entries@[i].0@
                        != self.entries@[j].0@ by {
                        if j == n {
                            assert(!old(self).holds_at(key@, i));
                        }
                    }
                }
                assert forall|k: K::V| #[trigger] self@.contains_key(k) <==> old(self)@.insert(
                    key@,
                    value,
                ).contains_key(k) by {
                    if old(self)@.contains_key(k) {
                        let c = choose|c: int| old(self).holds_at(k, c);
                        assert(self.holds_at(k, c));
                    }
                    if self@.contains_key(k) && k != key@ {
                        let c = choose|c: int| self.holds_at(k, c);
                        assert(old(self).holds_at(k, c));
                    }
                }
                assert forall|k: K::V| #[trigger] self@.contains_key(k) implies self@[k] == old(
                    self,
                )@.insert(key@, value)[k] by {
                    let c = choose|c: int| self.holds_at(k, c);
                    self.lemma_value_at(k, c);
                    if k != key@ {
                        assert(old(self).holds_at(k, c));
                        old(self).lemma_value_at(k, c);
                    }
                }
                assert(self@ =~= old(self)@.insert(key@, value));
            },
        }
    }
}

} // verus!
