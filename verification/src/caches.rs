//! Storage for completed query results.
//!
//! A cache maps a key to the value computed for it and the provenance stamp of
//! that computation. Keys are dense or interned identifiers. Two layouts are
//! offered, one keyed through a hash map and one indexed directly by the key,
//! each in a variant that hands values out by copy and in a variant that keeps
//! values in an append-only arena and hands out stable handles.

use crate::dep_graph::{invalid_dep_node_index, invalid_index, DepNodeIndex};
use std::collections::HashMap;
use vstd::prelude::*;

verus! {

broadcast use vstd::std_specs::hash::group_hash_axioms;

/// A place that can hold query values and hand them back in stored form.
pub trait QueryStorage {
    /// What a provider computes.
    type Value;

    /// What the storage hands out for a value it holds.
    type Stored: Copy;

    /// The internal invariant of the storage.
    spec fn wf(&self) -> bool;

    /// The completed entries: for each key its value and provenance stamp.
    spec fn entries(&self) -> Map<usize, (Self::Value, DepNodeIndex)>;

    /// Whether a stored form refers to a value that this storage holds.
    spec fn valid(&self, stored: Self::Stored) -> bool;

    /// The value that a stored form stands for.
    spec fn resolve(&self, stored: Self::Stored) -> Self::Value;

    /// Stores a value without entering it under any key, as is done for the
    /// placeholder of a cycle error.
    fn store_nocache(&mut self, value: Self::Value) -> (stored: Self::Stored)
        requires
            old(self).wf(),
        ensures
            final(self).wf(),
            final(self).entries() == old(self).entries(),
            final(self).valid(stored),
            final(self).resolve(stored) == value,
            forall|s: Self::Stored| #[trigger]
                old(self).valid(s) ==> final(self).valid(s) && final(self).resolve(s) == old(
                    self,
                ).resolve(s),
    ;

    /// Reads the value behind a stored form.
    fn value<'a>(&'a self, stored: &'a Self::Stored) -> (v: &'a Self::Value)
        requires
            self.wf(),
            self.valid(*stored),
        ensures
            *v == self.resolve(*stored),
    ;
}

/// A keyed cache of completed query results.
pub trait QueryCache: QueryStorage + Sized {
    /// The order in which `iter` hands the entries out.
    spec fn key_order(&self) -> Seq<usize>;

    /// The iteration order names each cached key exactly once.
    proof fn key_order_lists_entries(&self)
        requires
            self.wf(),
        ensures
            self.key_order().no_duplicates(),
            forall|k: usize| self.key_order().contains(k) <==> self.entries().contains_key(k),
    ;

    /// Looks a key up. A hit yields the stored value and its provenance
    /// stamp; the cache is left as it was.
    fn lookup(&self, key: &usize) -> (hit: Option<(Self::Stored, DepNodeIndex)>)
        requires
            self.wf(),
        ensures
            match hit {
                Some((stored, index)) => {
                    &&& self.entries().contains_key(*key)
                    &&& self.valid(stored)
                    &&& self.resolve(stored) == self.entries()[*key].0
                    &&& index == self.entries()[*key].1
                },
                None => !self.entries().contains_key(*key),
            },
    ;

    /// Records the result of a finished computation. An entry that already
    /// exists for the key is replaced; every other entry and every stored form
    /// handed out earlier stays as it was.
    fn complete(&mut self, key: usize, value: Self::Value, index: DepNodeIndex) -> (stored:
        Self::Stored)
        requires
            old(self).wf(),
        ensures
            final(self).wf(),
            final(self).entries() == old(self).entries().insert(key, (value, index)),
            final(self).valid(stored),
            final(self).resolve(stored) == value,
            forall|s: Self::Stored| #[trigger]
                old(self).valid(s) ==> final(self).valid(s) && final(self).resolve(s) == old(
                    self,
                ).resolve(s),
    ;

    /// Hands out every entry once, as key, stored value and provenance
    /// stamp, in the order given by `key_order`.
    fn iter(&self) -> (all: Vec<(usize, Self::Stored, DepNodeIndex)>)
        requires
            self.wf(),
        ensures
            all@.len() == self.key_order().len(),
            forall|i: int|
                0 <= i < all@.len() ==> {
                    &&& (#[trigger] all@[i]).0 == self.key_order()[i]
                    &&& self.valid(all@[i].1)
                    &&& self.resolve(all@[i].1) == self.entries()[all@[i].0].0
                    &&& all@[i].2 == self.entries()[all@[i].0].1
                },
    ;
}

/// A cache keyed through a hash map that hands values out by copy.
pub struct DefaultCache<V> {
    keys: Vec<usize>,
    cache: HashMap<usize, (V, DepNodeIndex)>,
}

impl<V: Copy> DefaultCache<V> {
    /// A cache with no entries.
    pub fn new() -> (c: Self)
        ensures
            c.wf(),
            c.entries() == Map::<usize, (V, DepNodeIndex)>::empty(),
            c.key_order() == Seq::<usize>::empty(),
    {
        let c = DefaultCache { keys: Vec::new(), cache: HashMap::new() };
        assert(c.cache@ =~= Map::<usize, (V, DepNodeIndex)>::empty());
        c
    }
}

impl<V: Copy> QueryStorage for DefaultCache<V> {
    type Value = V;

    type Stored = V;

    closed spec fn wf(&self) -> bool {
        &&& self.keys@.no_duplicates()
        &&& forall|k: usize| self.keys@.contains(k) <==> self.cache@.contains_key(k)
    }

    closed spec fn entries(&self) -> Map<usize, (V, DepNodeIndex)> {
        self.cache@
    }

    open spec fn valid(&self, stored: V) -> bool {
        true
    }

    open spec fn resolve(&self, stored: V) -> V {
        stored
    }

    fn store_nocache(&mut self, value: V) -> (stored: V) {
        value
    }

    fn value<'a>(&'a self, stored: &'a V) -> (v: &'a V) {
        stored
    }
}

impl<V: Copy> QueryCache for DefaultCache<V> {
    closed spec fn key_order(&self) -> Seq<usize> {
        self.keys@
    }

    proof fn key_order_lists_entries(&self) {
    }

    fn lookup(&self, key: &usize) -> (hit: Option<(V, DepNodeIndex)>) {
        match self.cache.get(key) {
            Some(entry) => Some((entry.0, entry.1)),
            None => None,
        }
    }

    fn complete(&mut self, key: usize, value: V, index: DepNodeIndex) -> (stored: V)
        ensures
            final(self).key_order() == if old(self).entries().contains_key(key) {
                old(self).key_order()
            } else {
                old(self).key_order().push(key)
            },
    {
        let known = self.cache.contains_key(&key);
        self.cache.insert(key, (value, index));
        if !known {
            self.keys.push(key);
            proof {
                let before = old(self).keys@;
                assert(self.keys@ == before.push(key));
                assert(!before.contains(key));
                assert forall|k: usize| self.keys@.contains(k) <==> self.cache@.contains_key(
                    k,
                ) by {
                    if k == key {
                        assert(self.keys@[before.len() as int] == key);
                    } else if before.contains(k) {
                        let i = choose|i: int| 0 <= i < before.len() && before[i] == k;
                        assert(self.keys@[i] == k);
                    }
                }
            }
        }
        value
    }

    fn iter(&self) -> (all: Vec<(usize, V, DepNodeIndex)>) {
        let mut all: Vec<(usize, V, DepNodeIndex)> = Vec::new();
        let mut i: usize = 0;
        while i < self.keys.len()
            invariant
                self.wf(),
                i <= self.keys@.len(),
                all@.len() == i,
                forall|j: int|
                    0 <= j < i ==> {
                        &&& (#[trigger] all@[j]).0 == self.keys@[j]
                        &&& all@[j].1 == self.cache@[all@[j].0].0
                        &&& all@[j].2 == self.cache@[all@[j].0].1
                    },
            decreases self.keys@.len() - i,
        {
            let key = self.keys[i];
            assert(self.keys@.contains(key));
            match self.cache.get(&key) {
                Some(entry) => {
                    all.push((key, entry.0, entry.1));
                },
                None => {
                    assert(false);
                },
            }
            i += 1;
        }
        all
    }
}

/// A stable handle to a value held in the arena of an arena-backed cache.
#[derive(Clone, Copy, Debug, PartialEq, Eq, Structural, Hash)]
pub struct ArenaRef {
    pub slot: usize,
}

/// A cache keyed through a hash map that keeps its values in an append-only
/// arena and hands out handles to them.
pub struct ArenaCache<V> {
    arena: Vec<(V, DepNodeIndex)>,
    keys: Vec<usize>,
    cache: HashMap<usize, usize>,
}

impl<V> ArenaCache<V> {
    /// A cache with no entries and an empty arena.
    pub fn new() -> (c: Self)
        ensures
            c.wf(),
            c.entries() == Map::<usize, (V, DepNodeIndex)>::empty(),
            c.key_order() == Seq::<usize>::empty(),
            forall|s: ArenaRef| !c.valid(s),
    {
        let c = ArenaCache { arena: Vec::new(), keys: Vec::new(), cache: HashMap::new() };
        assert(c.entries() =~= Map::<usize, (V, DepNodeIndex)>::empty());
        c
    }

    /// The number of values that the arena holds, cached or not.
    pub fn arena_len(&self) -> (n: usize)
        ensures
            forall|s: ArenaRef| self.valid(s) <==> s.slot < n,
    {
        self.arena.len()
    }
}

impl<V> QueryStorage for ArenaCache<V> {
    type Value = V;

    type Stored = ArenaRef;

    closed spec fn wf(&self) -> bool {
        &&& self.keys@.no_duplicates()
        &&& forall|k: usize| self.keys@.contains(k) <==> self.cache@.contains_key(k)
        &&& forall|k: usize| #[trigger]
            self.cache@.contains_key(k) ==> self.cache@[k] < self.arena@.len()
    }

    closed spec fn entries(&self) -> Map<usize, (V, DepNodeIndex)> {
        Map::new(
            |k: usize| self.cache@.contains_key(k),
            |k: usize| self.arena@[self.cache@[k] as int],
        )
    }

    closed spec fn valid(&self, stored: ArenaRef) -> bool {
        stored.slot < self.arena@.len()
    }

    closed spec fn resolve(&self, stored: ArenaRef) -> V {
        self.arena@[stored.slot as int].0
    }

    fn store_nocache(&mut self, value: V) -> (stored: ArenaRef) {
        let slot = self.arena.len();
        self.arena.push((value, invalid_dep_node_index()));
        assert(self.entries() =~= old(self).entries());
        ArenaRef { slot }
    }

    fn value<'a>(&'a self, stored: &'a ArenaRef) -> (v: &'a V) {
        &self.arena[stored.slot].0
    }
}

impl<V> QueryCache for ArenaCache<V> {
    closed spec fn key_order(&self) -> Seq<usize> {
        self.keys@
    }

    proof fn key_order_lists_entries(&self) {
    }

    fn lookup(&self, key: &usize) -> (hit: Option<(ArenaRef, DepNodeIndex)>) {
        match self.cache.get(key) {
            Some(slot) => {
                let slot: usize = *slot;
                Some((ArenaRef { slot }, self.arena[slot].1))
            },
            None => None,
        }
    }

    fn complete(&mut self, key: usize, value: V, index: DepNodeIndex) -> (stored: ArenaRef)
        ensures
            final(self).key_order() == if old(self).entries().contains_key(key) {
                old(self).key_order()
            } else {
                old(self).key_order().push(key)
            },
    {
        let slot = self.arena.len();
        self.arena.push((value, index));
        let known = self.cache.contains_key(&key);
        self.cache.insert(key, slot);
        if !known {
            self.keys.push(key);
            proof {
                let before = old(self).keys@;
                assert(self.keys@ == before.push(key));
                assert(!before.contains(key));
                assert forall|k: usize| self.keys@.contains(k) <==> self.cache@.contains_key(
                    k,
                ) by {
                    if k == key {
                        assert(self.keys@[before.len() as int] == key);
                    } else if before.contains(k) {
                        let i = choose|i: int| 0 <= i < before.len() && before[i] == k;
                        assert(self.keys@[i] == k);
                    }
                }
            }
        }
        assert(self.entries() =~= old(self).entries().insert(key, (value, index)));
        ArenaRef { slot }
    }

    fn iter(&self) -> (all: Vec<(usize, ArenaRef, DepNodeIndex)>) {
        let mut all: Vec<(usize, ArenaRef, DepNodeIndex)> = Vec::new();
        let mut i: usize = 0;
        while i < self.keys.len()
            invariant
                self.wf(),
                i <= self.keys@.len(),
                all@.len() == i,
                forall|j: int|
                    0 <= j < i ==> {
                        &&& (#[trigger] all@[j]).0 == self.keys@[j]
                        &&& self.cache@.contains_key(all@[j].0)
                        &&& all@[j].1.slot == self.cache@[all@[j].0]
                        &&& all@[j].2 == self.arena@[all@[j].1.slot as int].1
                    },
            decreases self.keys@.len() - i,
        {
            let key = self.keys[i];
            assert(self.keys@.contains(key));
            match self.cache.get(&key) {
                Some(slot) => {
                    let slot: usize = *slot;
                    all.push((key, ArenaRef { slot }, self.arena[slot].1));
                },
                None => {
                    assert(false);
                },
            }
            i += 1;
        }
        all
    }
}

/// The indices below `n` whose slot is filled, in ascending order.
pub open spec fn filled_slots<T>(slots: Seq<Option<T>>, n: nat) -> Seq<usize>
    decreases n,
{
    if n == 0 {
        Seq::empty()
    } else if slots[n - 1] is Some {
        filled_slots(slots, (n - 1) as nat).push((n - 1) as usize)
    } else {
        filled_slots(slots, (n - 1) as nat)
    }
}

/// `filled_slots` names exactly the filled indices below `n`, each once.
pub proof fn lemma_filled_slots<T>(slots: Seq<Option<T>>, n: nat)
    requires
        n <= slots.len(),
        slots.len() <= usize::MAX,
    ensures
        filled_slots(slots, n).no_duplicates(),
        forall|k: usize|
            filled_slots(slots, n).contains(k) <==> (k < n && slots[k as int] is Some),
    decreases n,
{
    if n > 0 {
        let shorter = filled_slots(slots, (n - 1) as nat);
        lemma_filled_slots(slots, (n - 1) as nat);
        let last = (n - 1) as usize;
        if slots[n - 1] is Some {
            let longer = shorter.push(last);
            assert(!shorter.contains(last));
            assert forall|k: usize| longer.contains(k) <==> (k < n && slots[k as int] is Some) by {
                if k == last {
                    assert(longer[shorter.len() as int] == last);
                } else if shorter.contains(k) {
                    let i = choose|i: int| 0 <= i < shorter.len() && shorter[i] == k;
                    assert(longer[i] == k);
                }
            }
        }
    }
}

/// `filled_slots` lists the indices in ascending order.
pub proof fn lemma_filled_slots_ascend<T>(slots: Seq<Option<T>>, n: nat)
    requires
        n <= slots.len(),
        slots.len() <= usize::MAX,
    ensures
        forall|i: int, j: int|
            0 <= i < j < filled_slots(slots, n).len() ==> filled_slots(slots, n)[i] < filled_slots(
                slots,
                n,
            )[j],
        forall|i: int| 0 <= i < filled_slots(slots, n).len() ==> filled_slots(slots, n)[i] < n,
    decreases n,
{
    if n > 0 {
        lemma_filled_slots_ascend(slots, (n - 1) as nat);
        let shorter = filled_slots(slots, (n - 1) as nat);
        let longer = filled_slots(slots, n);
        assert forall|i: int| 0 <= i < longer.len() implies longer[i] < n by {
            if i < shorter.len() {
                assert(longer[i] == shorter[i]);
            }
        }
        assert forall|i: int, j: int| 0 <= i < j < longer.len() implies longer[i] < longer[j] by {
            if j < shorter.len() {
                assert(longer[i] == shorter[i] && longer[j] == shorter[j]);
            } else {
                assert(longer[i] == shorter[i]);
                assert(shorter[i] < n - 1);
            }
        }
    }
}

/// A cache indexed directly by the key that hands values out by copy.
pub struct VecCache<V> {
    cache: Vec<Option<(V, DepNodeIndex)>>,
}

impl<V: Copy> VecCache<V> {
    /// The entries are handed out by ascending key.
    pub proof fn lemma_key_order_ascends(&self)
        ensures
            forall|i: int, j: int|
                0 <= i < j < self.key_order().len() ==> self.key_order()[i] < self.key_order()[j],
    {
        assert(self.cache@.len() == self.cache.len());
        lemma_filled_slots_ascend(self.cache@, self.cache@.len());
    }

    /// A cache with no entries.
    pub fn new() -> (c: Self)
        ensures
            c.wf(),
            c.entries() == Map::<usize, (V, DepNodeIndex)>::empty(),
            c.key_order() == Seq::<usize>::empty(),
    {
        let c = VecCache { cache: Vec::new() };
        assert(c.entries() =~= Map::<usize, (V, DepNodeIndex)>::empty());
        c
    }
}

impl<V: Copy> QueryStorage for VecCache<V> {
    type Value = V;

    type Stored = V;

    open spec fn wf(&self) -> bool {
        true
    }

    closed spec fn entries(&self) -> Map<usize, (V, DepNodeIndex)> {
        Map::new(
            |k: usize| k < self.cache@.len() && self.cache@[k as int] is Some,
            |k: usize| self.cache@[k as int]->0,
        )
    }

    open spec fn valid(&self, stored: V) -> bool {
        true
    }

    open spec fn resolve(&self, stored: V) -> V {
        stored
    }

    fn store_nocache(&mut self, value: V) -> (stored: V) {
        value
    }

    fn value<'a>(&'a self, stored: &'a V) -> (v: &'a V) {
        stored
    }
}

impl<V: Copy> QueryCache for VecCache<V> {
    closed spec fn key_order(&self) -> Seq<usize> {
        filled_slots(self.cache@, self.cache@.len())
    }

    proof fn key_order_lists_entries(&self) {
        assert(self.cache@.len() == self.cache.len());
        lemma_filled_slots(self.cache@, self.cache@.len());
    }

    fn lookup(&self, key: &usize) -> (hit: Option<(V, DepNodeIndex)>) {
        if *key < self.cache.len() {
            match &self.cache[*key] {
                Some(entry) => Some((entry.0, entry.1)),
                None => None,
            }
        } else {
            None
        }
    }

    fn complete(&mut self, key: usize, value: V, index: DepNodeIndex) -> (stored: V) {
        while self.cache.len() <= key
            invariant
                old(self).cache@.len() <= self.cache@.len(),
                forall|k: int|
                    0 <= k < old(self).cache@.len() ==> self.cache@[k] == old(self).cache@[k],
                forall|k: int|
                    old(self).cache@.len() <= k < self.cache@.len() ==> self.cache@[k] is None,
            decreases key + 1 - self.cache@.len(),
        {
            self.cache.push(None);
        }
        self.cache.set(key, Some((value, index)));
        assert(self.entries() =~= old(self).entries().insert(key, (value, index)));
        value
    }

    fn iter(&self) -> (all: Vec<(usize, V, DepNodeIndex)>) {
        let mut all: Vec<(usize, V, DepNodeIndex)> = Vec::new();
        let mut i: usize = 0;
        while i < self.cache.len()
            invariant
                i <= self.cache@.len(),
                all@.len() == filled_slots(self.cache@, i as nat).len(),
                forall|j: int|
                    0 <= j < all@.len() ==> {
                        &&& (#[trigger] all@[j]).0 == filled_slots(self.cache@, i as nat)[j]
                        &&& all@[j].0 < self.cache@.len()
                        &&& self.cache@[all@[j].0 as int] == Some((all@[j].1, all@[j].2))
                    },
            decreases self.cache@.len() - i,
        {
            match &self.cache[i] {
                Some(entry) => {
                    all.push((i, entry.0, entry.1));
                },
                None => {},
            }
            i += 1;
        }
        all
    }
}

/// A cache indexed directly by the key that keeps its values in an
/// append-only arena and hands out handles to them.
pub struct VecArenaCache<V> {
    arena: Vec<(V, DepNodeIndex)>,
    cache: Vec<Option<usize>>,
}

impl<V> VecArenaCache<V> {
    /// The entries are handed out by ascending key.
    pub proof fn lemma_key_order_ascends(&self)
        ensures
            forall|i: int, j: int|
                0 <= i < j < self.key_order().len() ==> self.key_order()[i] < self.key_order()[j],
    {
        assert(self.cache@.len() == self.cache.len());
        lemma_filled_slots_ascend(self.cache@, self.cache@.len());
    }

    /// A cache with no entries and an empty arena.
    pub fn new() -> (c: Self)
        ensures
            c.wf(),
            c.entries() == Map::<usize, (V, DepNodeIndex)>::empty(),
            c.key_order() == Seq::<usize>::empty(),
            forall|s: ArenaRef| !c.valid(s),
    {
        let c = VecArenaCache { arena: Vec::new(), cache: Vec::new() };
        assert(c.entries() =~= Map::<usize, (V, DepNodeIndex)>::empty());
        c
    }

    /// The number of values that the arena holds, cached or not.
    pub fn arena_len(&self) -> (n: usize)
        ensures
            forall|s: ArenaRef| self.valid(s) <==> s.slot < n,
    {
        self.arena.len()
    }
}

impl<V> QueryStorage for VecArenaCache<V> {
    type Value = V;

    type Stored = ArenaRef;

    closed spec fn wf(&self) -> bool {
        forall|k: int|
            0 <= k < self.cache@.len() && (#[trigger] self.cache@[k]) is Some ==> self.cache@[k]->0
                < self.arena@.len()
    }

    closed spec fn entries(&self) -> Map<usize, (V, DepNodeIndex)> {
        Map::new(
            |k: usize| k < self.cache@.len() && self.cache@[k as int] is Some,
            |k: usize| self.arena@[self.cache@[k as int]->0 as int],
        )
    }

    closed spec fn valid(&self, stored: ArenaRef) -> bool {
        stored.slot < self.arena@.len()
    }

    closed spec fn resolve(&self, stored: ArenaRef) -> V {
        self.arena@[stored.slot as int].0
    }

    fn store_nocache(&mut self, value: V) -> (stored: ArenaRef) {
        let slot = self.arena.len();
        self.arena.push((value, invalid_dep_node_index()));
        assert(self.entries() =~= old(self).entries());
        ArenaRef { slot }
    }

    fn value<'a>(&'a self, stored: &'a ArenaRef) -> (v: &'a V) {
        &self.arena[stored.slot].0
    }
}

impl<V> QueryCache for VecArenaCache<V> {
    closed spec fn key_order(&self) -> Seq<usize> {
        filled_slots(self.cache@, self.cache@.len())
    }

    proof fn key_order_lists_entries(&self) {
        assert(self.cache@.len() == self.cache.len());
        lemma_filled_slots(self.cache@, self.cache@.len());
    }

    fn lookup(&self, key: &usize) -> (hit: Option<(ArenaRef, DepNodeIndex)>) {
        if *key < self.cache.len() {
            match &self.cache[*key] {
                Some(slot) => {
                    let slot: usize = *slot;
                    Some((ArenaRef { slot }, self.arena[slot].1))
                },
                None => None,
            }
        } else {
            None
        }
    }

    fn complete(&mut self, key: usize, value: V, index: DepNodeIndex) -> (stored: ArenaRef) {
        let slot = self.arena.len();
        self.arena.push((value, index));
        while self.cache.len() <= key
            invariant
                self.arena@ == old(self).arena@.push((value, index)),
                old(self).cache@.len() <= self.cache@.len(),
                forall|k: int|
                    0 <= k < old(self).cache@.len() ==> self.cache@[k] == old(self).cache@[k],
                forall|k: int|
                    old(self).cache@.len() <= k < self.cache@.len() ==> self.cache@[k] is None,
            decreases key + 1 - self.cache@.len(),
        {
            self.cache.push(None);
        }
        self.cache.set(key, Some(slot));
        assert(self.entries() =~= old(self).entries().insert(key, (value, index)));
        ArenaRef { slot }
    }

    fn iter(&self) -> (all: Vec<(usize, ArenaRef, DepNodeIndex)>) {
        let mut all: Vec<(usize, ArenaRef, DepNodeIndex)> = Vec::new();
        let mut i: usize = 0;
        while i < self.cache.len()
            invariant
                self.wf(),
                i <= self.cache@.len(),
                all@.len() == filled_slots(self.cache@, i as nat).len(),
                forall|j: int|
                    0 <= j < all@.len() ==> {
                        &&& (#[trigger] all@[j]).0 == filled_slots(self.cache@, i as nat)[j]
                        &&& all@[j].0 < self.cache@.len()
                        &&& self.cache@[all@[j].0 as int] == Some(all@[j].1.slot)
                        &&& all@[j].1.slot < self.arena@.len()
                        &&& all@[j].2 == self.arena@[all@[j].1.slot as int].1
                    },
            decreases self.cache@.len() - i,
        {
            match &self.cache[i] {
                Some(slot) => {
                    let slot: usize = *slot;
                    all.push((i, ArenaRef { slot }, self.arena[slot].1));
                },
                None => {},
            }
            i += 1;
        }
        all
    }
}

/// Names the two caches of one layout, so that a query kind can pick its
/// cache by a type alone.
pub trait CacheSelector<V> {
    /// The variant that hands values out by copy.
    type Cache: QueryCache<Value = V>;

    /// The variant that hands out handles into an arena.
    type ArenaCache: QueryCache<Value = V, Stored = ArenaRef>;

    /// An empty cache of the by-copy variant.
    fn new_cache() -> (c: Self::Cache)
        ensures
            c.wf(),
            c.entries() == Map::<usize, (V, DepNodeIndex)>::empty(),
    ;

    /// An empty cache of the arena variant.
    fn new_arena_cache() -> (c: Self::ArenaCache)
        ensures
            c.wf(),
            c.entries() == Map::<usize, (V, DepNodeIndex)>::empty(),
    ;
}

/// Selects the caches that are keyed through a hash map.
pub struct DefaultCacheSelector;

impl<V: Copy> CacheSelector<V> for DefaultCacheSelector {
    type Cache = DefaultCache<V>;

    type ArenaCache = ArenaCache<V>;

    fn new_cache() -> (c: DefaultCache<V>) {
        DefaultCache::new()
    }

    fn new_arena_cache() -> (c: ArenaCache<V>) {
        ArenaCache::new()
    }
}

/// Selects the caches that are indexed directly by the key.
pub struct VecCacheSelector;

impl<V: Copy> CacheSelector<V> for VecCacheSelector {
    type Cache = VecCache<V>;

    type ArenaCache = VecArenaCache<V>;

    fn new_cache() -> (c: VecCache<V>) {
        VecCache::new()
    }

    fn new_arena_cache() -> (c: VecArenaCache<V>) {
        VecArenaCache::new()
    }
}

} // verus!
