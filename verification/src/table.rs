//! A table of stored entries.

use vstd::prelude::*;

verus! {

/// A type that can name an entry of a `Table`.
pub trait Key: View + Sized {
    /// Whether the two keys name the same entry.
    fn same(&self, other: &Self) -> (b: bool)
        ensures
            b == (self@ == other@),
    ;
}

impl Key for u32 {
    fn same(&self, other: &u32) -> (b: bool) {
        *self == *other
    }
}

impl Key for u64 {
    fn same(&self, other: &u64) -> (b: bool) {
        *self == *other
    }
}

impl<A: Key, B: Key> Key for (A, B) {
    fn same(&self, other: &(A, B)) -> (b: bool) {
        self.0.same(&other.0) && self.1.same(&other.1)
    }
}

impl<const N: usize> Key for [u8; N] {
    fn same(&self, other: &[u8; N]) -> (b: bool) {
        let mut i: usize = 0;
        while i < N
            invariant
                i <= N,
                forall|j: int| 0 <= j < i ==> self@[j] == other@[j],
            decreases N - i,
        {
            if self[i] != other[i] {
                assert(self@[i as int] != other@[i as int]);
                return false;
            }
            i += 1;
        }
        assert(self@ =~= other@);
        true
    }
}

/// The entries that a list of key-value pairs stands for: of two pairs with the same key the
/// later one counts.
pub open spec fn entries_of<K: Key, V>(pairs: Seq<(K, V)>) -> Map<K::V, V>
    decreases pairs.len(),
{
    if pairs.len() == 0 {
        Map::empty()
    } else {
        entries_of(pairs.drop_last()).insert(pairs.last().0@, pairs.last().1)
    }
}

proof fn lemma_absent<K: Key, V>(pairs: Seq<(K, V)>, key: K::V)
    requires
        forall|j: int| 0 <= j < pairs.len() ==> (#[trigger] pairs[j]).0@ != key,
    ensures
        !entries_of(pairs).contains_key(key),
    decreases pairs.len(),
{
    if pairs.len() > 0 {
        let front = pairs.drop_last();
        assert forall|j: int| 0 <= j < front.len() implies (#[trigger] front[j]).0@ != key by {
            assert(pairs[j].0@ != key);
        }
        lemma_absent(front, key);
        assert(pairs[pairs.len() - 1].0@ != key);
    }
}

proof fn lemma_present<K: Key, V>(pairs: Seq<(K, V)>, i: int)
    requires
        0 <= i < pairs.len(),
        forall|j: int| i < j < pairs.len() ==> (#[trigger] pairs[j]).0@ != pairs[i].0@,
    ensures
        entries_of(pairs).contains_key(pairs[i].0@),
        entries_of(pairs)[pairs[i].0@] == pairs[i].1,
    decreases pairs.len(),
{
    if i < pairs.len() - 1 {
        let front = pairs.drop_last();
        assert forall|j: int| i < j < front.len() implies (#[trigger] front[j]).0@
            != front[i].0@ by {
            assert(pairs[j].0@ != pairs[i].0@);
        }
        lemma_present(front, i);
        assert(pairs[pairs.len() - 1].0@ != pairs[i].0@);
    }
}

proof fn lemma_overwrite<K: Key, V>(pairs: Seq<(K, V)>, i: int, pair: (K, V))
    requires
        0 <= i < pairs.len(),
        pair.0@ == pairs[i].0@,
        forall|j: int| i < j < pairs.len() ==> (#[trigger] pairs[j]).0@ != pairs[i].0@,
    ensures
        entries_of(pairs.update(i, pair)) == entries_of(pairs).insert(pair.0@, pair.1),
    decreases pairs.len(),
{
    let updated = pairs.update(i, pair);
    if i == pairs.len() - 1 {
        assert(updated.drop_last() =~= pairs.drop_last());
        assert(entries_of(updated) =~= entries_of(pairs).insert(pair.0@, pair.1));
    } else {
        let front = pairs.drop_last();
        assert(updated.drop_last() =~= front.update(i, pair));
        assert forall|j: int| i < j < front.len() implies (#[trigger] front[j]).0@
            != front[i].0@ by {
            assert(pairs[j].0@ != pairs[i].0@);
        }
        lemma_overwrite(front, i, pair);
        assert(pairs[pairs.len() - 1].0@ != pairs[i].0@);
        assert(entries_of(updated) =~= entries_of(pairs).insert(pair.0@, pair.1));
    }
}

/// Stored entries: at most one value under each key.
pub struct Table<K, V> {
    pairs: Vec<(K, V)>,
}

impl<K: Key, V> View for Table<K, V> {
    type V = Map<K::V, V>;

    closed spec fn view(&self) -> Map<K::V, V> {
        entries_of(self.pairs@)
    }
}

impl<K: Key, V> Table<K, V> {
    /// A table with no entries.
    pub fn new() -> (table: Self)
        ensures
            table@ == Map::<K::V, V>::empty(),
    {
        Table { pairs: Vec::new() }
    }

    /// Position of the pair that counts for `key`.
    fn position(&self, key: &K) -> (at: Option<usize>)
        ensures
            match at {
                Some(i) => {
                    &&& i < self.pairs@.len()
                    &&& self.pairs@[i as int].0@ == key@
                    &&& forall|j: int|
                        i < j < self.pairs@.len() ==> (#[trigger] self.pairs@[j]).0@ != key@
                },
                None => forall|j: int|
                    0 <= j < self.pairs@.len() ==> (#[trigger] self.pairs@[j]).0@ != key@,
            },
    {
        let mut i: usize = self.pairs.len();
        while i > 0
            invariant
                i <= self.pairs@.len(),
                forall|j: int|
                    i <= j < self.pairs@.len() ==> (#[trigger] self.pairs@[j]).0@ != key@,
            decreases i,
        {
            i -= 1;
            if self.pairs[i].0.same(key) {
                return Some(i);
            }
        }
        None
    }

    /// The value stored under `key`, if there is one.
    pub fn get(&self, key: &K) -> (value: Option<&V>)
        ensures
            match value {
                Some(v) => self@.contains_key(key@) && *v == self@[key@],
                None => !self@.contains_key(key@),
            },
    {
        match self.position(key) {
            Some(i) => {
                proof {
                    lemma_present(self.pairs@, i as int);
                }
                Some(&self.pairs[i].1)
            },
            None => {
                proof {
                    lemma_absent(self.pairs@, key@);
                }
                None
            },
        }
    }

    /// Stores `value` under `key`, in place of what was there.
    pub fn set(&mut self, key: K, value: V)
        ensures
            final(self)@ == old(self)@.insert(key@, value),
    {
        match self.position(&key) {
            Some(i) => {
                proof {
                    lemma_overwrite(self.pairs@, i as int, (key, value));
                }
                self.pairs[i] = (key, value);
            },
            None => {
                proof {
                    assert(self.pairs@.push((key, value)).drop_last() =~= self.pairs@);
                }
                self.pairs.push((key, value));
            },
        }
    }
}

impl<K: Key, V: Copy> Table<K, V> {
    /// The value stored under `key`, or `default` where there is none.
    pub fn get_or(&self, key: &K, default: V) -> (value: V)
        ensures
            value == (if self@.contains_key(key@) {
                self@[key@]
            } else {
                default
            }),
    {
        match self.get(key) {
            Some(v) => *v,
            None => default,
        }
    }
}

} // verus!
