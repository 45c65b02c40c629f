//! What holds of resolving and recording, whatever the traffic.

use crate::addr::{IpAddress, XB_BROADCAST};
use crate::cache::CacheEntry;
use crate::tun::{learned_entry, recorded, resolved};
use vstd::prelude::*;

verus! {

/// One sighting: `mesh` sent a frame whose payload came from `ip`, at `at`.
pub struct Sighting {
    pub ip: IpAddress,
    pub mesh: u64,
    pub at: u64,
}

/// The cache after every sighting of `seen` was recorded, first to last,
/// starting from `dests`.
pub open spec fn after_sightings(
    broadcast_everything: bool,
    max_ip_cache: u64,
    dests: Map<IpAddress, CacheEntry>,
    seen: Seq<Sighting>,
) -> Map<IpAddress, CacheEntry>
    decreases seen.len(),
{
    if seen.len() == 0 {
        dests
    } else {
        recorded(
            broadcast_everything,
            max_ip_cache,
            after_sightings(broadcast_everything, max_ip_cache, dests, seen.drop_last()),
            seen.last().ip,
            seen.last().mesh,
            seen.last().at,
        )
    }
}

/// Sightings of other addresses leave what is held for `ip` as it was.
pub proof fn lemma_other_sightings_keep_entry(
    broadcast_everything: bool,
    max_ip_cache: u64,
    dests: Map<IpAddress, CacheEntry>,
    seen: Seq<Sighting>,
    ip: IpAddress,
)
    requires
        forall|i: int| 0 <= i < seen.len() ==> seen[i].ip != ip,
    ensures
        after_sightings(broadcast_everything, max_ip_cache, dests, seen).contains_key(ip)
            == dests.contains_key(ip),
        dests.contains_key(ip) ==> after_sightings(
            broadcast_everything,
            max_ip_cache,
            dests,
            seen,
        )[ip] == dests[ip],
        forall|now: u64|
            resolved(
                broadcast_everything,
                after_sightings(broadcast_everything, max_ip_cache, dests, seen),
                ip,
                now,
            ) == resolved(broadcast_everything, dests, ip, now),
    decreases seen.len(),
{
    if seen.len() > 0 {
        let rest = seen.drop_last();
        assert forall|i: int| 0 <= i < rest.len() implies rest[i].ip != ip by {
            assert(rest[i] == seen[i]);
        }
        lemma_other_sightings_keep_entry(broadcast_everything, max_ip_cache, dests, rest, ip);
        assert(seen.last() == seen[seen.len() - 1]);
    }
}

/// An address that no frame ever came from resolves to the broadcast
/// address, at every instant and whatever else was learned.
pub proof fn lemma_never_seen_is_broadcast(
    broadcast_everything: bool,
    max_ip_cache: u64,
    seen: Seq<Sighting>,
    ip: IpAddress,
    now: u64,
)
    requires
        forall|i: int| 0 <= i < seen.len() ==> seen[i].ip != ip,
    ensures
        resolved(
            broadcast_everything,
            after_sightings(
                broadcast_everything,
                max_ip_cache,
                Map::<IpAddress, CacheEntry>::empty(),
                seen,
            ),
            ip,
            now,
        ) == XB_BROADCAST,
{
    lemma_other_sightings_keep_entry(
        broadcast_everything,
        max_ip_cache,
        Map::<IpAddress, CacheEntry>::empty(),
        seen,
        ip,
    );
}

/// With `broadcast_everything` every address resolves to the broadcast
/// address, whatever the cache holds and whatever was recorded.
pub proof fn lemma_override_is_broadcast(
    dests: Map<IpAddress, CacheEntry>,
    ip: IpAddress,
    now: u64,
)
    ensures
        resolved(true, dests, ip, now) == XB_BROADCAST,
{
}

/// A recorded sender is what the address resolves to while the entry is
/// fresh: at every instant up to and including `at + max_ip_cache`, and
/// whatever sightings of other addresses came in between.
pub proof fn lemma_fresh_record_resolves(
    max_ip_cache: u64,
    dests: Map<IpAddress, CacheEntry>,
    others: Seq<Sighting>,
    ip: IpAddress,
    mesh: u64,
    at: u64,
    now: u64,
)
    requires
        now <= at + max_ip_cache,
        forall|i: int| 0 <= i < others.len() ==> others[i].ip != ip,
    ensures
        resolved(
            false,
            after_sightings(
                false,
                max_ip_cache,
                recorded(false, max_ip_cache, dests, ip, mesh, at),
                others,
            ),
            ip,
            now,
        ) == mesh,
{
    lemma_other_sightings_keep_entry(
        false,
        max_ip_cache,
        recorded(false, max_ip_cache, dests, ip, mesh, at),
        others,
        ip,
    );
}

/// Once `max_ip_cache` has passed since a sender was recorded, and no frame
/// from the address came in meanwhile, the address resolves to the broadcast
/// address again.
pub proof fn lemma_expired_record_is_broadcast(
    broadcast_everything: bool,
    max_ip_cache: u64,
    dests: Map<IpAddress, CacheEntry>,
    others: Seq<Sighting>,
    ip: IpAddress,
    mesh: u64,
    at: u64,
    now: u64,
)
    requires
        now > at + max_ip_cache,
        forall|i: int| 0 <= i < others.len() ==> others[i].ip != ip,
    ensures
        resolved(
            broadcast_everything,
            after_sightings(
                broadcast_everything,
                max_ip_cache,
                recorded(broadcast_everything, max_ip_cache, dests, ip, mesh, at),
                others,
            ),
            ip,
            now,
        ) == XB_BROADCAST,
{
    lemma_other_sightings_keep_entry(
        broadcast_everything,
        max_ip_cache,
        recorded(broadcast_everything, max_ip_cache, dests, ip, mesh, at),
        others,
        ip,
    );
}

/// Recording the same sender for the same address a second time, no earlier
/// than the first, leaves the cache as the second recording alone would: the
/// sender stays, its expiry is no earlier than before, and every instant at
/// which the address resolved to the sender still does.  At the same instant
/// the second recording changes nothing.
pub proof fn lemma_record_twice(
    broadcast_everything: bool,
    max_ip_cache: u64,
    dests: Map<IpAddress, CacheEntry>,
    ip: IpAddress,
    mesh: u64,
    first: u64,
    second: u64,
)
    requires
        first <= second,
    ensures
        ({
            let once = recorded(broadcast_everything, max_ip_cache, dests, ip, mesh, first);
            let twice = recorded(broadcast_everything, max_ip_cache, once, ip, mesh, second);
            &&& twice == recorded(broadcast_everything, max_ip_cache, dests, ip, mesh, second)
            &&& first == second ==> twice == once
            &&& !broadcast_everything ==> twice[ip].dest == mesh && twice[ip].expiration
                >= once[ip].expiration
            &&& forall|now: u64|
                resolved(broadcast_everything, once, ip, now) == mesh ==> resolved(
                    broadcast_everything,
                    twice,
                    ip,
                    now,
                ) == mesh
        }),
{
    let once = recorded(broadcast_everything, max_ip_cache, dests, ip, mesh, first);
    let twice = recorded(broadcast_everything, max_ip_cache, once, ip, mesh, second);
    assert(twice =~= recorded(broadcast_everything, max_ip_cache, dests, ip, mesh, second));
    if first == second {
        assert(twice =~= once);
    }
}

/// The sender recorded last for an address wins: while its entry is fresh the
/// address resolves to it, whoever was recorded before.
pub proof fn lemma_last_record_wins(
    max_ip_cache: u64,
    dests: Map<IpAddress, CacheEntry>,
    ip: IpAddress,
    mac_a: u64,
    at_a: u64,
    mac_b: u64,
    at_b: u64,
    now: u64,
)
    requires
        now <= at_b + max_ip_cache,
    ensures
        resolved(
            false,
            recorded(
                false,
                max_ip_cache,
                recorded(false, max_ip_cache, dests, ip, mac_a, at_a),
                ip,
                mac_b,
                at_b,
            ),
            ip,
            now,
        ) == mac_b,
        recorded(
            false,
            max_ip_cache,
            recorded(false, max_ip_cache, dests, ip, mac_a, at_a),
            ip,
            mac_b,
            at_b,
        ) == dests.insert(ip, learned_entry(max_ip_cache, mac_b, at_b)),
{
    assert(recorded(
        false,
        max_ip_cache,
        recorded(false, max_ip_cache, dests, ip, mac_a, at_a),
        ip,
        mac_b,
        at_b,
    ) =~= dests.insert(ip, learned_entry(max_ip_cache, mac_b, at_b)));
}

} // verus!
