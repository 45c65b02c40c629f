use xbtun::addr::IpAddress;
use xbtun::cache::{AddressCache, CacheEntry};

#[test]
fn new_cache_holds_nothing() {
    let cache = AddressCache::new();
    assert_eq!(cache.get(&IpAddress::V4(0)), None);
    assert_eq!(cache.get(&IpAddress::V4(0x0a00_0005)), None);
    assert_eq!(cache.get(&IpAddress::V6(1)), None);
}

#[test]
fn insert_then_get_returns_the_entry() {
    let mut cache = AddressCache::new();
    let entry = CacheEntry { dest: 0x1234, expiration: 99 };
    cache.insert(IpAddress::V4(0x0a00_0005), entry);
    assert_eq!(cache.get(&IpAddress::V4(0x0a00_0005)), Some(entry));
    assert_eq!(cache.get(&IpAddress::V4(0x0a00_0006)), None);
}

#[test]
fn insert_replaces_the_entry_of_the_same_address() {
    let mut cache = AddressCache::new();
    let ip = IpAddress::V6(0x2001_0db8_0000_0000_0000_0000_0000_0001);
    cache.insert(ip, CacheEntry { dest: 1, expiration: 10 });
    cache.insert(ip, CacheEntry { dest: 2, expiration: 5 });
    assert_eq!(cache.get(&ip), Some(CacheEntry { dest: 2, expiration: 5 }));
}

#[test]
fn insert_leaves_other_addresses_alone() {
    let mut cache = AddressCache::new();
    let a = IpAddress::V4(1);
    let b = IpAddress::V4(2);
    cache.insert(a, CacheEntry { dest: 10, expiration: 100 });
    cache.insert(b, CacheEntry { dest: 20, expiration: 200 });
    assert_eq!(cache.get(&a), Some(CacheEntry { dest: 10, expiration: 100 }));
    assert_eq!(cache.get(&b), Some(CacheEntry { dest: 20, expiration: 200 }));
}

#[test]
fn families_with_the_same_number_are_different_addresses() {
    let mut cache = AddressCache::new();
    cache.insert(IpAddress::V4(7), CacheEntry { dest: 4, expiration: 1 });
    assert_eq!(cache.get(&IpAddress::V6(7)), None);
    cache.insert(IpAddress::V6(7), CacheEntry { dest: 6, expiration: 2 });
    assert_eq!(cache.get(&IpAddress::V4(7)), Some(CacheEntry { dest: 4, expiration: 1 }));
    assert_eq!(cache.get(&IpAddress::V6(7)), Some(CacheEntry { dest: 6, expiration: 2 }));
}
