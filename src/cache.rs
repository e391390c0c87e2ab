//! A bounded key-value cache with generational batch eviction
//!
//! Each generation lists the first keys inserted into it as "old". An insert
//! that finds the mapping grown past its target size plus a fifth first
//! removes every key so listed, which starts a new generation; then it lists
//! its own key if the generation has room, and writes the key.
use vstd::prelude::*;

use std::collections::HashMap;
use std::hash::Hash;
use vstd::std_specs::hash::obeys_key_model;

verus! {

/// Keys whose hashing and equality follow the hash table model, and whose
/// clones equal them
pub open spec fn lawful_key<K: Clone>() -> bool {
    &&& obeys_key_model::<K>()
    &&& forall|a: K, b: K| #[trigger] call_ensures(K::clone, (&a,), b) ==> a == b
}

/// How many keys a generation lists as old: a fifth of `max`, rounded up
pub open spec fn spec_prune_over(max: nat) -> nat {
    (max + 4) / 5
}

/// The size past which the mapping is pruned: `max` and a fifth more
pub open spec fn spec_prune_len(max: nat) -> nat {
    max + spec_prune_over(max)
}

/// Locally cached key-value store
pub struct Cache<K: Eq + Hash + Clone, V> {
    /// Items within this cache
    pub inner: HashMap<K, V>,
    /// The keys listed as old in the current generation, in insertion order
    pub old: Vec<K>,
    /// Optional intended length; actual length may be up to 20% higher
    pub max: Option<usize>,
}

impl<K: Eq + Hash + Clone, V> Cache<K, V> {
    /// The old list never holds more than a fifth of `max` (rounded up), and
    /// nothing when there is no `max`; every key it lists is in the mapping;
    /// and with a positive `max` the mapping holds at most one entry past its
    /// pruning size, and passes that size only while some key is listed
    pub open spec fn wf(&self) -> bool {
        &&& lawful_key::<K>()
        &&& forall|i: int| 0 <= i < self.old@.len() ==> self.inner@.contains_key(#[trigger] self.old@[i])
        &&& match self.max {
            Some(m) => {
                &&& self.old@.len() <= spec_prune_over(m as nat)
                &&& m >= 1 ==> self.inner@.len() <= spec_prune_len(m as nat) + 1
                &&& m >= 1 && self.inner@.len() > spec_prune_len(m as nat) ==> self.old@.len() > 0
            },
            None => self.old@.len() == 0,
        }
    }

    /// Whether the mapping has grown past its pruning size
    pub open spec fn prunes(&self) -> bool {
        &&& self.max is Some
        &&& self.inner@.len() > spec_prune_len(self.max->0 as nat)
    }

    /// The mapping once an insert has pruned it: without the listed keys when
    /// it had grown past its pruning size, unchanged otherwise
    pub open spec fn kept(&self) -> Map<K, V> {
        if self.prunes() {
            self.inner@.remove_keys(self.old@.to_set())
        } else {
            self.inner@
        }
    }

    /// The old list once an insert has pruned: a prune ends the generation
    pub open spec fn pruned_old(&self) -> Seq<K> {
        if self.prunes() {
            Seq::empty()
        } else {
            self.old@
        }
    }

    /// The old list after an insert of `k`: the key is listed while the
    /// current generation has room left
    pub open spec fn listed(&self, k: K) -> Seq<K> {
        if self.max is Some && self.pruned_old().len() < spec_prune_over(self.max->0 as nat) {
            self.pruned_old().push(k)
        } else {
            self.pruned_old()
        }
    }

    /// Initializes new cache with optional `max` length
    pub fn new(max: Option<usize>) -> (c: Self)
        requires
            lawful_key::<K>(),
        ensures
            c.wf(),
            c.max == max,
            c.inner@ == Map::<K, V>::empty(),
            c.old@ == Seq::<K>::empty(),
    {
        match (prune_len(max), prune_over(max)) {
            (Some(len), Some(over)) => {
                // Fix capacity for initial perf if max is defined
                Cache { inner: HashMap::with_capacity(len), old: Vec::with_capacity(over), max }
            },
            _ => {
                // No max is defined, don't add initial capacity
                Cache { inner: HashMap::new(), old: Vec::new(), max }
            },
        }
    }

    /// Inserts new item into cache, returning the value it replaced
    pub fn insert(&mut self, k: K, v: V) -> (r: Option<V>)
        requires
            old(self).wf(),
        ensures
            final(self).wf(),
            final(self).max == old(self).max,
            final(self).inner@ == old(self).kept().insert(k, v),
            final(self).old@ == old(self).listed(k),
            r == old(self).kept().get(k),
    {
        proof {
            lemma_prune_removes_at_most_a_fifth(*self);
        }
        let ghost pruned = self.kept();
        // Prune, then check if the key should be added to `old`
        self.prune();
        match prune_over(self.max) {
            Some(over) => {
                if self.old.len() < over {
                    self.old.push(k.clone());
                }
            },
            None => {},
        }
        let r = self.inner.insert(k, v);
        proof {
            assert(pruned.dom().finite());
            if pruned.contains_key(k) {
                assert(self.inner@.dom() =~= pruned.dom());
            } else {
                assert(self.inner@.dom() =~= pruned.dom().insert(k));
            }
        }
        r
    }

    /// Prunes cache to [Self::max] if it's 20% over
    fn prune(&mut self)
        requires
            lawful_key::<K>(),
        ensures
            final(self).max == old(self).max,
            old(self).prunes() ==> final(self).inner@ == old(self).inner@.remove_keys(
                old(self).old@.to_set(),
            ),
            old(self).prunes() ==> final(self).old@ == Seq::<K>::empty(),
            !old(self).prunes() ==> final(self).inner@ == old(self).inner@,
            !old(self).prunes() ==> final(self).old@ == old(self).old@,
    {
        match prune_len(self.max) {
            Some(len) => {
                if self.inner.len() > len {
                    let mut i: usize = 0;
                    while i < self.old.len()
                        invariant
                            lawful_key::<K>(),
                            0 <= i <= self.old@.len(),
                            self.max == old(self).max,
                            self.old@ == old(self).old@,
                            self.inner@ == old(self).inner@.remove_keys(
                                self.old@.subrange(0, i as int).to_set(),
                            ),
                        decreases self.old@.len() - i,
                    {
                        self.inner.remove(&self.old[i]);
                        proof {
                            let s = self.old@;
                            assert(s.subrange(0, i + 1) =~= s.subrange(0, i as int).push(s[i as int]));
                            s.subrange(0, i as int).lemma_push_to_set_commute(s[i as int]);
                            assert(s.subrange(0, i + 1).to_set() =~= s.subrange(0, i as int).to_set().insert(s[i as int]));
                            assert(self.inner@ =~= old(self).inner@.remove_keys(s.subrange(0, i + 1).to_set()));
                        }
                        i += 1;
                    }
                    proof {
                        assert(self.old@.subrange(0, self.old@.len() as int) =~= self.old@);
                    }
                    self.old.clear();
                }
            },
            None => {},
        }
    }
}

/// Value (if any) defined which causes the cache to be pruned; it stops at the
/// largest `usize`, which no length exceeds
fn prune_len(max: Option<usize>) -> (r: Option<usize>)
    ensures
        r is Some <==> max is Some,
        r matches Some(l) ==> l == if spec_prune_len(max->0 as nat) <= usize::MAX {
            spec_prune_len(max->0 as nat)
        } else {
            usize::MAX as nat
        },
{
    match (max, prune_over(max)) {
        (Some(val), Some(over)) => Some(val.saturating_add(over)),
        _ => None,
    }
}

/// Amount maximum is allowed to be over, used for [prune_len] calculations
fn prune_over(max: Option<usize>) -> (r: Option<usize>)
    ensures
        r is Some <==> max is Some,
        r matches Some(o) ==> o == spec_prune_over(max->0 as nat),
{
    match max {
        Some(val) => Some(val / 5 + if val % 5 == 0 { 0 } else { 1 }),
        None => None,
    }
}

/// A prune removes only keys listed as old in the current generation, so an
/// insert never removes more than a fifth of `max` (rounded up), and the
/// mapping shrinks by exactly the number of keys it removed. A prune with a
/// positive `max` removes at least one key, and so brings the mapping back to
/// its pruning size.
pub proof fn lemma_prune_removes_at_most_a_fifth<K: Eq + Hash + Clone, V>(c: Cache<K, V>)
    requires
        c.wf(),
    ensures
        c.inner@.dom().difference(c.kept().dom()).subset_of(c.old@.to_set()),
        c.max matches Some(m) ==> c.inner@.dom().difference(c.kept().dom()).len()
            <= spec_prune_over(m as nat),
        c.kept().len() + c.inner@.dom().difference(c.kept().dom()).len() == c.inner@.len(),
        c.prunes() && c.max->0 >= 1 ==> c.kept().len() <= spec_prune_len(c.max->0 as nat),
{
    let dom = c.inner@.dom();
    let listed = c.old@.to_set();
    let gone = dom.difference(c.kept().dom());
    assert(dom.finite());
    assert(gone =~= if c.prunes() {
        dom.intersect(listed)
    } else {
        Set::<K>::empty()
    });
    c.old@.lemma_cardinality_of_set();
    vstd::set_lib::lemma_len_subset(gone, listed);
    assert(c.kept().dom() =~= dom.difference(gone));
    vstd::set_lib::lemma_len_subset(gone, dom);
    vstd::set_lib::lemma_set_difference_len(dom, gone);
    assert(dom.intersect(gone) =~= gone);
    if c.prunes() && c.max->0 >= 1 {
        assert(c.old@.len() > 0);
        assert(gone.contains(c.old@[0]));
        vstd::set_lib::lemma_set_empty_equivalency_len(gone);
    }
}

/// With a positive `max`, the mapping never holds more than one entry past
/// its pruning size (`max` and a fifth more, rounded up): every insert into a
/// cache made by [Cache::new] keeps it so.
pub proof fn lemma_size_bound<K: Eq + Hash + Clone, V>(c: Cache<K, V>)
    requires
        c.wf(),
        c.max matches Some(m) && m >= 1,
    ensures
        c.inner@.len() <= spec_prune_len(c.max->0 as nat) + 1,
{
}

/// A prune that ends a full generation of distinct listed keys removes
/// exactly a fifth of `max` (rounded up).
pub proof fn lemma_full_generation_prune<K: Eq + Hash + Clone, V>(c: Cache<K, V>)
    requires
        c.wf(),
        c.prunes(),
        c.old@.len() == spec_prune_over(c.max->0 as nat),
        c.old@.no_duplicates(),
    ensures
        c.kept().len() == c.inner@.len() - spec_prune_over(c.max->0 as nat),
{
    lemma_prune_removes_at_most_a_fifth(c);
    let dom = c.inner@.dom();
    let listed = c.old@.to_set();
    assert(dom.difference(c.kept().dom()) =~= listed);
    c.old@.unique_seq_to_set();
}

/// Inserting a key that the mapping holds, unless this very insert prunes that
/// key away, returns its previous value and maps it to the new one while the
/// number of entries stays that of the mapping it is written into; without a
/// prune, that is the mapping as it was.
pub proof fn lemma_overwrite<K: Eq + Hash + Clone, V>(c: Cache<K, V>, k: K, v: V)
    requires
        c.wf(),
        c.inner@.contains_key(k),
        !(c.prunes() && c.old@.contains(k)),
    ensures
        c.kept().get(k) == Some(c.inner@[k]),
        c.kept().insert(k, v)[k] == v,
        c.kept().insert(k, v).len() == c.kept().len(),
        !c.prunes() ==> c.kept() == c.inner@,
{
    let dom = c.inner@.dom();
    assert(dom.finite());
    assert(c.kept().dom().subset_of(dom));
    vstd::set_lib::lemma_len_subset(c.kept().dom(), dom);
    assert(c.kept().contains_key(k));
    assert(c.kept().insert(k, v).dom() =~= c.kept().dom());
}

} // verus!
