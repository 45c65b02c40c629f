//! The address cache: which mesh node was last seen sending for an IP address,
//! and until when that knowledge is trusted.

use crate::addr::IpAddress;
use std::collections::HashMap;
use vstd::prelude::*;

verus! {

broadcast use vstd::std_specs::hash::group_hash_axioms;

/// What the cache remembers about one IP address.
#[derive(Clone, Copy, Debug, PartialEq, Eq)]
pub struct CacheEntry {
    /// Mesh address of the node last seen sending for the IP address.
    pub dest: u64,
    /// Last instant, in nanoseconds, at which the entry is still fresh.
    pub expiration: u128,
}

/// A map from IP address to [`CacheEntry`], with at most one entry per address.
///
/// The two address families are kept apart, each keyed by the address as an
/// integer; the view joins them into one map over [`IpAddress`].
pub struct AddressCache {
    v4: HashMap<u32, CacheEntry>,
    v6: HashMap<u128, CacheEntry>,
}

impl View for AddressCache {
    type V = Map<IpAddress, CacheEntry>;

    closed spec fn view(&self) -> Map<IpAddress, CacheEntry> {
        Map::new(
            |ip: IpAddress|
                match ip {
                    IpAddress::V4(a) => self.v4@.contains_key(a),
                    IpAddress::V6(a) => self.v6@.contains_key(a),
                },
            |ip: IpAddress|
                match ip {
                    IpAddress::V4(a) => self.v4@[a],
                    IpAddress::V6(a) => self.v6@[a],
                },
        )
    }
}

impl AddressCache {
    /// A cache that knows no address.
    pub fn new() -> (cache: AddressCache)
        ensures
            cache@ == Map::<IpAddress, CacheEntry>::empty(),
    {
        let cache = AddressCache { v4: HashMap::new(), v6: HashMap::new() };
        assert(cache@ =~= Map::<IpAddress, CacheEntry>::empty());
        cache
    }

    /// The entry held for `ip`, if there is one.
    pub fn get(&self, ip: &IpAddress) -> (entry: Option<CacheEntry>)
        ensures
            entry == (if self@.contains_key(*ip) {
                Some(self@[*ip])
            } else {
                None
            }),
    {
        match ip {
            IpAddress::V4(a) => match self.v4.get(a) {
                Some(e) => Some(*e),
                None => None,
            },
            IpAddress::V6(a) => match self.v6.get(a) {
                Some(e) => Some(*e),
                None => None,
            },
        }
    }

    /// Sets the entry for `ip`, replacing the one that was there; every other
    /// address keeps its entry.
    pub fn insert(&mut self, ip: IpAddress, entry: CacheEntry)
        ensures
            final(self)@ == old(self)@.insert(ip, entry),
    {
        match ip {
            IpAddress::V4(a) => {
                self.v4.insert(a, entry);
            },
            IpAddress::V6(a) => {
                self.v6.insert(a, entry);
            },
        }
        assert(self@ =~= old(self)@.insert(ip, entry));
    }
}

} // verus!
