use gateway_requests::cache::TtlCache;

fn k(s: &str) -> String {
    s.to_string()
}

#[test]
fn hit_within_ttl_miss_after() {
    let mut c: TtlCache<u32> = TtlCache::new(4, 10);
    assert_eq!(c.get(&k("a"), 0), None);
    c.set(k("a"), 1, 100);
    assert_eq!(c.get(&k("a"), 100), Some(&1));
    assert_eq!(c.get(&k("a"), 109), Some(&1));
    assert_eq!(c.get(&k("a"), 110), None);
    assert_eq!(c.get(&k("a"), 99), None);
    assert_eq!(c.get(&k("b"), 100), None);
}

#[test]
fn set_replaces_existing_key() {
    let mut c: TtlCache<u32> = TtlCache::new(2, 10);
    c.set(k("a"), 1, 0);
    c.set(k("b"), 2, 0);
    c.set(k("a"), 3, 5);
    assert_eq!(c.len(), 2);
    assert_eq!(c.get(&k("a"), 12), Some(&3));
    assert_eq!(c.get(&k("b"), 5), Some(&2));
}

#[test]
fn full_cache_drops_first_stored() {
    let mut c: TtlCache<u32> = TtlCache::new(2, 100);
    c.set(k("a"), 1, 0);
    c.set(k("b"), 2, 1);
    c.set(k("c"), 3, 2);
    assert_eq!(c.len(), 2);
    assert_eq!(c.get(&k("a"), 3), None);
    assert_eq!(c.get(&k("b"), 3), Some(&2));
    assert_eq!(c.get(&k("c"), 3), Some(&3));
}

#[test]
fn zero_ttl_never_hits() {
    let mut c: TtlCache<u32> = TtlCache::new(1, 0);
    c.set(k("a"), 1, 7);
    assert_eq!(c.get(&k("a"), 7), None);
}
