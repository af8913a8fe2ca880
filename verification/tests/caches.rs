use query_system::caches::{
    ArenaCache, ArenaRef, CacheSelector, DefaultCache, DefaultCacheSelector,
    QueryCache, QueryStorage, VecArenaCache, VecCache, VecCacheSelector,
};
use query_system::dep_graph::{
    invalid_dep_node_index, zero_fingerprint, DepNode, DepNodeIndex, Fingerprint,
};

fn ix(i: u32) -> DepNodeIndex {
    DepNodeIndex(i)
}

#[test]
fn default_cache_lookup_and_complete() {
    let mut cache: DefaultCache<u32> = DefaultCache::new();
    assert_eq!(cache.lookup(&7), None);
    assert_eq!(cache.complete(7, 42, ix(3)), 42);
    assert_eq!(cache.lookup(&7), Some((42, ix(3))));
    assert_eq!(cache.lookup(&8), None);
}

#[test]
fn default_cache_later_completion_wins() {
    let mut cache: DefaultCache<u32> = DefaultCache::new();
    cache.complete(7, 1, ix(1));
    cache.complete(9, 2, ix(2));
    assert_eq!(cache.complete(7, 3, ix(3)), 3);
    assert_eq!(cache.lookup(&7), Some((3, ix(3))));
    assert_eq!(cache.iter(), vec![(7, 3, ix(3)), (9, 2, ix(2))]);
}

#[test]
fn default_cache_iterates_in_order_of_first_completion() {
    let mut cache: DefaultCache<u32> = DefaultCache::new();
    assert!(cache.iter().is_empty());
    for key in [50usize, 3, 1000, 7] {
        cache.complete(key, key as u32 + 1, ix(key as u32));
    }
    assert_eq!(
        cache.iter(),
        vec![(50, 51, ix(50)), (3, 4, ix(3)), (1000, 1001, ix(1000)), (7, 8, ix(7))]
    );
}

#[test]
fn default_cache_stores_without_caching() {
    let mut cache: DefaultCache<u32> = DefaultCache::new();
    let stored = cache.store_nocache(5);
    assert_eq!(stored, 5);
    assert_eq!(*cache.value(&stored), 5);
    assert!(cache.iter().is_empty());
}

#[test]
fn arena_cache_hands_out_handles() {
    let mut cache: ArenaCache<String> = ArenaCache::new();
    assert_eq!(cache.arena_len(), 0);
    let a = cache.complete(4, String::from("four"), ix(1));
    let b = cache.complete(5, String::from("five"), ix(2));
    assert_eq!(a, ArenaRef { slot: 0 });
    assert_eq!(b, ArenaRef { slot: 1 });
    assert_eq!(cache.value(&a), "four");
    assert_eq!(cache.value(&b), "five");
    assert_eq!(cache.lookup(&4), Some((a, ix(1))));
    assert_eq!(cache.lookup(&6), None);
    assert_eq!(cache.arena_len(), 2);
}

#[test]
fn arena_cache_keeps_replaced_values_reachable() {
    let mut cache: ArenaCache<String> = ArenaCache::new();
    let old = cache.complete(4, String::from("old"), ix(1));
    let new = cache.complete(4, String::from("new"), ix(2));
    assert_eq!(cache.value(&old), "old");
    assert_eq!(cache.value(&new), "new");
    assert_eq!(cache.lookup(&4), Some((new, ix(2))));
    assert_eq!(cache.iter(), vec![(4, new, ix(2))]);
}

#[test]
fn arena_cache_stores_without_caching() {
    let mut cache: ArenaCache<String> = ArenaCache::new();
    let kept = cache.complete(1, String::from("kept"), ix(1));
    let loose = cache.store_nocache(String::from("loose"));
    assert_eq!(cache.value(&loose), "loose");
    assert_eq!(cache.value(&kept), "kept");
    assert_eq!(cache.iter(), vec![(1, kept, ix(1))]);
    assert_eq!(cache.arena_len(), 2);
}

#[test]
fn vec_cache_lookup_and_complete() {
    let mut cache: VecCache<u8> = VecCache::new();
    assert_eq!(cache.lookup(&0), None);
    assert_eq!(cache.complete(5, 50, ix(5)), 50);
    assert_eq!(cache.lookup(&5), Some((50, ix(5))));
    assert_eq!(cache.lookup(&4), None);
    assert_eq!(cache.lookup(&6), None);
    assert_eq!(cache.complete(0, 1, ix(0)), 1);
    assert_eq!(cache.lookup(&0), Some((1, ix(0))));
}

#[test]
fn vec_cache_iterates_in_key_order() {
    let mut cache: VecCache<u8> = VecCache::new();
    cache.complete(9, 90, ix(1));
    cache.complete(2, 20, ix(2));
    cache.complete(5, 50, ix(3));
    cache.complete(2, 21, ix(4));
    assert_eq!(cache.iter(), vec![(2, 21, ix(4)), (5, 50, ix(3)), (9, 90, ix(1))]);
}

#[test]
fn vec_cache_stores_without_caching() {
    let mut cache: VecCache<u8> = VecCache::new();
    assert_eq!(cache.store_nocache(3), 3);
    assert!(cache.iter().is_empty());
}

#[test]
fn vec_arena_cache_hands_out_handles() {
    let mut cache: VecArenaCache<Vec<u8>> = VecArenaCache::new();
    let a = cache.complete(3, vec![3], ix(1));
    let b = cache.complete(1, vec![1, 1], ix(2));
    let c = cache.store_nocache(vec![9]);
    assert_eq!(cache.value(&a), &vec![3]);
    assert_eq!(cache.value(&b), &vec![1, 1]);
    assert_eq!(cache.value(&c), &vec![9]);
    assert_eq!(cache.lookup(&3), Some((a, ix(1))));
    assert_eq!(cache.lookup(&1), Some((b, ix(2))));
    assert_eq!(cache.lookup(&2), None);
    assert_eq!(cache.lookup(&100), None);
    assert_eq!(cache.iter(), vec![(1, b, ix(2)), (3, a, ix(1))]);
    assert_eq!(cache.arena_len(), 3);
}

#[test]
fn vec_arena_cache_later_completion_wins() {
    let mut cache: VecArenaCache<u64> = VecArenaCache::new();
    let old = cache.complete(2, 7, ix(1));
    let new = cache.complete(2, 8, ix(2));
    assert_eq!(*cache.value(&old), 7);
    assert_eq!(cache.lookup(&2), Some((new, ix(2))));
    assert_eq!(cache.iter(), vec![(2, new, ix(2))]);
}

fn fill<C: QueryCache<Value = u32>>(mut cache: C) -> Vec<(usize, u32, DepNodeIndex)> {
    for key in [4usize, 2, 8] {
        let stored = cache.complete(key, key as u32 * 2, ix(key as u32));
        assert_eq!(*cache.value(&stored), key as u32 * 2);
    }
    let mut seen: Vec<(usize, u32, DepNodeIndex)> =
        cache.iter().iter().map(|(k, s, i)| (*k, *cache.value(s), *i)).collect();
    seen.sort_by_key(|e| e.0);
    seen
}

#[test]
fn all_caches_hold_the_same_entries() {
    let expected = vec![(2, 4, ix(2)), (4, 8, ix(4)), (8, 16, ix(8))];
    assert_eq!(fill(<DefaultCacheSelector as CacheSelector<u32>>::new_cache()), expected);
    assert_eq!(fill(<DefaultCacheSelector as CacheSelector<u32>>::new_arena_cache()), expected);
    assert_eq!(fill(<VecCacheSelector as CacheSelector<u32>>::new_cache()), expected);
    assert_eq!(fill(<VecCacheSelector as CacheSelector<u32>>::new_arena_cache()), expected);
}

#[test]
fn fingerprint_halves() {
    let f = Fingerprint::new(3, 4);
    assert_eq!(f, Fingerprint(3, 4));
    assert_eq!(f.as_value(), (3, 4));
    assert_eq!(zero_fingerprint(), Fingerprint(0, 0));
}

#[test]
fn invalid_index_is_fixed() {
    assert_eq!(invalid_dep_node_index(), DepNodeIndex(0xFFFF_FF00));
    let node = DepNode { kind: 1, hash: Fingerprint(1, 2) };
    assert_eq!(node, DepNode { kind: 1, hash: Fingerprint(1, 2) });
}

#[test]
fn arena_cache_iterates_in_order_of_first_completion() {
    let mut cache: ArenaCache<u8> = ArenaCache::new();
    let a = cache.complete(9, 1, ix(1));
    let b = cache.complete(2, 2, ix(2));
    let c = cache.complete(9, 3, ix(3));
    assert_eq!(a, ArenaRef { slot: 0 });
    assert_eq!(cache.iter(), vec![(9, c, ix(3)), (2, b, ix(2))]);
}
