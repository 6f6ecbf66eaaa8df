//! A key-value bag that remembers the order in which its entries came.
use vstd::prelude::*;
use vstd::std_specs::cmp::PartialEqSpec;
use vstd::std_specs::convert::FromSpecImpl;
use vstd::std_specs::iter::IteratorSpec;
use vstd::std_specs::slice::axiom_spec_slice_iter;
use vstd::std_specs::vec::axiom_spec_into_iter;

verus! {

/// The values stored under keys equal to `k`, in the order of `entries`.
pub open spec fn values_of<K: PartialEq, V>(entries: Seq<(K, V)>, k: K) -> Seq<V>
    decreases entries.len(),
{
    if entries.len() == 0 {
        Seq::empty()
    } else if entries.last().0.eq_spec(&k) {
        values_of(entries.drop_last(), k).push(entries.last().1)
    } else {
        values_of(entries.drop_last(), k)
    }
}

/// The value that was stored first under a key equal to `k`.
pub open spec fn first_value_of<K: PartialEq, V>(entries: Seq<(K, V)>, k: K) -> Option<V> {
    if values_of(entries, k).len() == 0 {
        None
    } else {
        Some(values_of(entries, k).first())
    }
}

/// Some entry of `entries` holds the value `v`.
pub open spec fn holds_value<K, V>(entries: Seq<(K, V)>, v: V) -> bool {
    exists|i: int| 0 <= i < entries.len() && (#[trigger] entries[i]).1 == v
}

/// No entry of `entries` has a key equal to `k`.
pub open spec fn lacks<K: PartialEq, V>(entries: Seq<(K, V)>, k: K) -> bool {
    forall|i: int| 0 <= i < entries.len() ==> !(#[trigger] entries[i]).0.eq_spec(&k)
}

/// The values under a key of two bags laid end to end are those of the
/// first followed by those of the second.
pub proof fn lemma_values_of_concat<K: PartialEq, V>(a: Seq<(K, V)>, b: Seq<(K, V)>, k: K)
    ensures
        values_of(a + b, k) == values_of(a, k) + values_of(b, k),
    decreases b.len(),
{
    if b.len() == 0 {
        assert(a + b =~= a);
        assert(values_of(a, k) + values_of(b, k) =~= values_of(a, k));
    } else {
        assert((a + b).drop_last() =~= a + b.drop_last());
        assert((a + b).last() == b.last());
        lemma_values_of_concat(a, b.drop_last(), k);
        if b.last().0.eq_spec(&k) {
            assert(values_of(a + b, k) =~= values_of(a, k) + values_of(b, k));
        }
    }
}

/// A bag without the key holds no value under it.
pub proof fn lemma_values_of_lacking<K: PartialEq, V>(entries: Seq<(K, V)>, k: K)
    requires
        lacks(entries, k),
    ensures
        values_of(entries, k) == Seq::<V>::empty(),
    decreases entries.len(),
{
    if entries.len() > 0 {
        assert(!entries[entries.len() - 1].0.eq_spec(&k));
        assert forall|i: int| 0 <= i < entries.drop_last().len() implies !(
        #[trigger] entries.drop_last()[i]).0.eq_spec(&k) by {
            assert(entries.drop_last()[i] == entries[i]);
        }
        lemma_values_of_lacking(entries.drop_last(), k);
    }
}

/// The values under a key in a bag of one entry.
pub proof fn lemma_values_of_single<K: PartialEq, V>(entry: (K, V), k: K)
    ensures
        values_of(seq![entry], k) == if entry.0.eq_spec(&k) {
            seq![entry.1]
        } else {
            Seq::<V>::empty()
        },
{
    let s = seq![entry];
    assert(s.drop_last() =~= Seq::<(K, V)>::empty());
    assert(s.last() == entry);
    assert(values_of(s.drop_last(), k) =~= Seq::<V>::empty());
    if entry.0.eq_spec(&k) {
        assert(values_of(s, k) =~= seq![entry.1]);
    }
}

/// An ordered key-value bag.
///
/// A key may occur many times. The bag keeps its entries in the order of
/// insertion: `get` answers with the value that came first for a key,
/// `get_all` with every value for it, and the entries are walked in the
/// order in which they were inserted, not grouped by key.
#[derive(Debug)]
pub struct OrderedBag<K, V> {
    entries: Vec<(K, V)>,
}

impl<K, V> View for OrderedBag<K, V> {
    type V = Seq<(K, V)>;

    /// The entries, oldest first.
    closed spec fn view(&self) -> Seq<(K, V)> {
        self.entries@
    }
}

impl<K: PartialEq, V> OrderedBag<K, V> {
    /// Constructs a new, empty `OrderedBag<K, V>`.
    pub fn new() -> (bag: Self)
        ensures
            bag@ == Seq::<(K, V)>::empty(),
    {
        Self { entries: Vec::new() }
    }

    /// Constructs a new, empty `OrderedBag<K, V>` with room for `capacity` entries.
    pub fn with_capacity(capacity: usize) -> (bag: Self)
        ensures
            bag@ == Seq::<(K, V)>::empty(),
    {
        Self { entries: Vec::with_capacity(capacity) }
    }

    /// Returns a reference to the value corresponding to the key.
    /// If more than one value is inserted for a key, get always returns the first value inserted.
    pub fn get(&self, k: &K) -> (r: Option<&V>)
        ensures
            K::obeys_eq_spec() ==> match first_value_of(self@, *k) {
                Some(v) => r == Some(&v),
                None => r is None,
            },
            r matches Some(v) ==> holds_value(self@, *v),
    {
        let mut i: usize = 0;
        while i < self.entries.len()
            invariant
                i <= self.entries@.len(),
                K::obeys_eq_spec() ==> lacks(self.entries@.take(i as int), *k),
            decreases self.entries@.len() - i,
        {
            if self.entries[i].0 == *k {
                proof {
                    if K::obeys_eq_spec() {
                        let before = self.entries@.take(i as int);
                        let after = self.entries@.skip(i as int);
                        assert(self.entries@ =~= before + after);
                        lemma_values_of_concat(before, after, *k);
                        lemma_values_of_lacking(before, *k);
                        assert(after =~= seq![self.entries@[i as int]] + after.skip(1));
                        lemma_values_of_concat(seq![self.entries@[i as int]], after.skip(1), *k);
                        lemma_values_of_single(self.entries@[i as int], *k);
                    }
                }
                assert(self.entries@[i as int].1 == self.entries@[i as int].1);
                return Some(&self.entries[i].1);
            }
            i += 1;
            proof {
                if K::obeys_eq_spec() {
                    assert forall|j: int| 0 <= j < i implies !(#[trigger] self.entries@.take(
                        i as int,
                    )[j]).0.eq_spec(k) by {
                        if j < i - 1 {
                            assert(self.entries@.take(i - 1)[j] == self.entries@[j]);
                        }
                    }
                }
            }
        }
        proof {
            if K::obeys_eq_spec() {
                assert(self.entries@.take(self.entries@.len() as int) =~= self.entries@);
                lemma_values_of_lacking(self.entries@, *k);
            }
        }
        None
    }

    /// Returns a `Vec` of references to all values corresponding to the key.
    pub fn get_all(&self, k: &K) -> (r: Vec<&V>)
        ensures
            K::obeys_eq_spec() ==> r@.len() == values_of(self@, *k).len() && forall|j: int|
                0 <= j < r@.len() ==> *r@[j] == values_of(self@, *k)[j],
            forall|j: int| 0 <= j < r@.len() ==> holds_value(self@, *#[trigger] r@[j]),
    {
        let mut r: Vec<&V> = Vec::new();
        let mut i: usize = 0;
        while i < self.entries.len()
            invariant
                i <= self.entries@.len(),
                K::obeys_eq_spec() ==> r@.len() == values_of(self.entries@.take(i as int), *k).len()
                    && forall|j: int|
                    0 <= j < r@.len() ==> *r@[j] == values_of(self.entries@.take(i as int), *k)[j],
                forall|j: int| 0 <= j < r@.len() ==> holds_value(self.entries@, *#[trigger] r@[j]),
            decreases self.entries@.len() - i,
        {
            let ghost before = self.entries@.take(i as int);
            let ghost upto = self.entries@.take(i + 1);
            proof {
                assert(upto.drop_last() =~= before);
                assert(upto.last() == self.entries@[i as int]);
            }
            if self.entries[i].0 == *k {
                assert(self.entries@[i as int].1 == self.entries@[i as int].1);
                r.push(&self.entries[i].1);
            }
            i += 1;
        }
        proof {
            assert(self.entries@.take(self.entries@.len() as int) =~= self.entries@);
        }
        r
    }

    /// Inserts a key-value pair into the bag.
    /// If the key already exists, the value is added after the ones it has.
    pub fn insert(&mut self, k: K, v: V)
        ensures
            final(self)@ == old(self)@.push((k, v)),
    {
        self.entries.push((k, v));
    }

    /// Returns the number of elements in the bag.
    pub fn len(&self) -> (n: usize)
        ensures
            n == self@.len(),
    {
        self.entries.len()
    }

    /// Returns true if the bag contains no elements.
    pub fn is_empty(&self) -> (b: bool)
        ensures
            b == (self@.len() == 0),
    {
        self.entries.len() == 0
    }

    /// The entries of the bag, in the order they were inserted.
    pub fn as_slice(&self) -> (entries: &[(K, V)])
        ensures
            entries@ == self@,
    {
        self.entries.as_slice()
    }

    /// Returns an iterator over the bag.
    /// The iterator will yield tuples in the order they were inserted into the bag.
    pub fn iter(&self) -> (it: std::slice::Iter<'_, (K, V)>)
        ensures
            it.remaining() == self@.as_ref(),
    {
        broadcast use axiom_spec_slice_iter;

        self.entries.as_slice().iter()
    }

    /// Hands the entries out in the order they were inserted, consuming the bag.
    pub fn into_iter(self) -> (it: std::vec::IntoIter<(K, V)>)
        ensures
            it.remaining() == self@,
    {
        broadcast use axiom_spec_into_iter;

        self.entries.into_iter()
    }

    /// The entries as a vector, in the order they were inserted.
    pub fn into_vec(self) -> (entries: Vec<(K, V)>)
        ensures
            entries@ == self@,
    {
        self.entries
    }
}

impl<K: PartialEq, V> From<Vec<(K, V)>> for OrderedBag<K, V> {
    fn from(entries: Vec<(K, V)>) -> (bag: Self) {
        Self { entries }
    }
}

impl<K: PartialEq, V> FromSpecImpl<Vec<(K, V)>> for OrderedBag<K, V> {
    open spec fn obeys_from_spec() -> bool {
        true
    }

    closed spec fn from_spec(entries: Vec<(K, V)>) -> Self {
        Self { entries }
    }
}

/// Inserting first `a` and then `b` under a key that the bag lacks makes
/// `a` the value that `get` finds and `[a, b]` the values that `get_all`
/// finds.
pub proof fn lemma_first_wins<K: PartialEq, V>(entries: Seq<(K, V)>, k: K, a: V, b: V)
    requires
        lacks(entries, k),
        k.eq_spec(&k),
    ensures
        first_value_of(entries.push((k, a)).push((k, b)), k) == Some(a),
        values_of(entries.push((k, a)).push((k, b)), k) == seq![a, b],
{
    let one = entries.push((k, a));
    let two = one.push((k, b));
    lemma_values_of_lacking(entries, k);
    assert(one.drop_last() =~= entries);
    assert(two.drop_last() =~= one);
    assert(values_of(one, k) =~= seq![a]);
    assert(values_of(two, k) =~= seq![a, b]);
}

} // verus!
