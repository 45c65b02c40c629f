//! The gateway state and its two directions of traffic.
//!
//! The gateway itself performs no input or output on the virtual interface or
//! the radio.  Each direction is one step: the caller reads a packet or a
//! frame, hands it in, and carries out what the step answers.  The state is a
//! plain value: a step that changes it takes `&mut self`, so whoever shares a
//! gateway between threads guards it with a lock, and no lookup ever sees a
//! half-written entry.

use crate::addr::{IpAddress, XB_BROADCAST};
use crate::cache::{AddressCache, CacheEntry};
use crate::channel::{bytes_contents, make_job, try_send, SendOutcome, TransmitJob};
use crate::clock::Clock;
use crate::packet::{
    extract_ip, extract_source_ip, slice_ip, sliced_ip, starts_like_ip, ParseError, SlicedPacket,
};
use crossbeam_channel::Sender;
use vstd::prelude::*;

verus! {

/// The mesh address that traffic for `ip` goes to at instant `now`: the
/// learned one while its entry is fresh, the broadcast address where nothing
/// is known, where the entry has expired, or where `broadcast_everything`
/// forbids unicast altogether.
pub open spec fn resolved(
    broadcast_everything: bool,
    dests: Map<IpAddress, CacheEntry>,
    ip: IpAddress,
    now: u64,
) -> u64 {
    if !broadcast_everything && dests.contains_key(ip) && now <= dests[ip].expiration {
        dests[ip].dest
    } else {
        XB_BROADCAST
    }
}

/// The entry that a sighting of `mesh` at instant `now` leaves behind.
pub open spec fn learned_entry(max_ip_cache: u64, mesh: u64, now: u64) -> CacheEntry {
    CacheEntry { dest: mesh, expiration: (now + max_ip_cache) as u128 }
}

/// The cache after `mesh` was seen sending for `ip` at instant `now`: the
/// entry for `ip` is replaced, all others stay.  With `broadcast_everything`
/// nothing is learned.
pub open spec fn recorded(
    broadcast_everything: bool,
    max_ip_cache: u64,
    dests: Map<IpAddress, CacheEntry>,
    ip: IpAddress,
    mesh: u64,
    now: u64,
) -> Map<IpAddress, CacheEntry> {
    if broadcast_everything {
        dests
    } else {
        dests.insert(ip, learned_entry(max_ip_cache, mesh, now))
    }
}

/// The cache after a frame from `fromu64` arrived at instant `now`: the
/// sender is recorded under the source address of the payload's IP header,
/// and a payload without one teaches nothing.
pub open spec fn dests_after_frame(
    broadcast_everything: bool,
    max_ip_cache: u64,
    dests: Map<IpAddress, CacheEntry>,
    parsed: Result<SlicedPacket, ParseError>,
    fromu64: u64,
    now: u64,
) -> Map<IpAddress, CacheEntry> {
    match parsed {
        Ok(packet) => match packet.source() {
            Some(source) => recorded(broadcast_everything, max_ip_cache, dests, source, fromu64, now),
            None => dests,
        },
        Err(_) => dests,
    }
}

/// What the gateway decided to do with a packet read from the interface.
#[derive(Debug, PartialEq, Eq)]
pub enum TunPlan {
    /// Hand `job` to the transmitter; `destination` is where the packet's IP
    /// header says it goes.
    Transmit { destination: IpAddress, job: TransmitJob },
    /// The bytes are no IP packet; discard them.
    Unparsable(ParseError),
    /// The packet has no IP layer; discard it.
    NoIpHeader,
}

/// What became of a packet read from the interface.
#[derive(Debug, PartialEq, Eq)]
pub enum TunOutcome {
    /// The packet is queued for `destxbmac`.
    Queued { destination: IpAddress, destxbmac: u64 },
    /// The queue was full and the packet was dropped; `job` is what the
    /// queue refused.
    QueueFull { destination: IpAddress, job: TransmitJob },
    /// Nobody drains the queue any more; `job` is what could not be sent.
    Disconnected { destination: IpAddress, job: TransmitJob },
    /// The bytes were no IP packet and were discarded.
    Unparsable(ParseError),
    /// The packet had no IP layer and was discarded.
    NoIpHeader,
}

impl TunOutcome {
    /// The IP destination of the packet, where it had one.
    pub open spec fn destination(self) -> Option<IpAddress> {
        match self {
            TunOutcome::Queued { destination, destxbmac } => Some(destination),
            TunOutcome::QueueFull { destination, job } => Some(destination),
            TunOutcome::Disconnected { destination, job } => Some(destination),
            TunOutcome::Unparsable(_) => None,
            TunOutcome::NoIpHeader => None,
        }
    }

    /// The mesh address the packet was addressed to, where it had an IP
    /// destination.
    pub open spec fn destxbmac(self) -> Option<u64> {
        match self {
            TunOutcome::Queued { destination, destxbmac } => Some(destxbmac),
            TunOutcome::QueueFull { destination, job } => Some(job.dest),
            TunOutcome::Disconnected { destination, job } => Some(job.dest),
            TunOutcome::Unparsable(_) => None,
            TunOutcome::NoIpHeader => None,
        }
    }

    /// The job that the queue did not take, where it refused one.
    pub open spec fn refused(self) -> Option<TransmitJob> {
        match self {
            TunOutcome::QueueFull { destination, job } => Some(job),
            TunOutcome::Disconnected { destination, job } => Some(job),
            _ => None,
        }
    }

    /// The outcome for a packet to `destination`, addressed to `destxbmac`,
    /// once the queue has answered with `sent`.
    pub fn after_send(destination: IpAddress, destxbmac: u64, sent: SendOutcome) -> (r: TunOutcome)
        ensures
            r == (match sent {
                SendOutcome::Sent => TunOutcome::Queued { destination, destxbmac },
                SendOutcome::Full(job) => TunOutcome::QueueFull { destination, job },
                SendOutcome::Disconnected(job) => TunOutcome::Disconnected { destination, job },
            }),
    {
        match sent {
            SendOutcome::Sent => TunOutcome::Queued { destination, destxbmac },
            SendOutcome::Full(job) => TunOutcome::QueueFull { destination, job },
            SendOutcome::Disconnected(job) => TunOutcome::Disconnected { destination, job },
        }
    }

    /// Whether the direction must stop: only a queue that nobody drains any
    /// more is fatal.  A full queue and a discarded packet are not.
    pub fn is_fatal(&self) -> (r: bool)
        ensures
            r == (*self is Disconnected),
    {
        match self {
            TunOutcome::Disconnected { .. } => true,
            _ => false,
        }
    }
}

/// What a frame from the radio taught the gateway.
#[derive(Debug, PartialEq, Eq)]
pub enum Learning {
    /// The sender was recorded under this source address.
    Learned(IpAddress),
    /// The payload came from this source address, but learning is switched off.
    Disabled(IpAddress),
    /// The payload had no IP layer.
    NoIpHeader,
    /// The payload was no IP packet.
    Unparsable(ParseError),
}

/// What a payload that parsed as `parsed` teaches a gateway.
pub open spec fn learning_of(
    broadcast_everything: bool,
    parsed: Result<SlicedPacket, ParseError>,
) -> Learning {
    match parsed {
        Ok(packet) => match packet.source() {
            Some(source) => if broadcast_everything {
                Learning::Disabled(source)
            } else {
                Learning::Learned(source)
            },
            None => Learning::NoIpHeader,
        },
        Err(e) => Learning::Unparsable(e),
    }
}

/// The answer to a frame from the radio.
#[derive(Debug, PartialEq, Eq)]
pub struct XbStep<'a> {
    /// What the frame taught.
    pub learning: Learning,
    /// The bytes to write to the interface: always the payload as it came.
    pub to_tun: &'a [u8],
}

/// The state of one gateway.
pub struct XBTun {
    /// Mesh address of this node.
    pub myxbmac: u64,
    /// Name of the virtual interface as the system assigned it.
    pub name: String,
    /// When set, every packet goes to the broadcast address and nothing is
    /// learned.
    pub broadcast_everything: bool,
    /// How long a learned address stays fresh, in nanoseconds.
    pub max_ip_cache: u64,
    /// The learned mesh address of each IP address, with its expiry.
    pub dests: AddressCache,
    /// The clock that instants are read from.
    pub clock: Clock,
}

impl XBTun {
    /// Where traffic for `ip` goes at instant `now`.
    pub open spec fn resolved(&self, ip: IpAddress, now: u64) -> u64 {
        resolved(self.broadcast_everything, self.dests@, ip, now)
    }

    /// Whether `other` differs from `self` in nothing but the cache.
    pub open spec fn same_settings(&self, other: &XBTun) -> bool {
        &&& self.myxbmac == other.myxbmac
        &&& self.name == other.name
        &&& self.broadcast_everything == other.broadcast_everything
        &&& self.max_ip_cache == other.max_ip_cache
        &&& self.clock == other.clock
    }

    /// A gateway for the interface `name`, with an empty cache and a clock
    /// that starts now.  `max_ip_cache` is in nanoseconds.
    pub fn new_tap(
        myxbmac: u64,
        broadcast_everything: bool,
        name: String,
        max_ip_cache: u64,
    ) -> (gateway: XBTun)
        ensures
            gateway.myxbmac == myxbmac,
            gateway.broadcast_everything == broadcast_everything,
            gateway.name == name,
            gateway.max_ip_cache == max_ip_cache,
            gateway.dests@ == Map::<IpAddress, CacheEntry>::empty(),
    {
        XBTun {
            myxbmac,
            name,
            broadcast_everything,
            max_ip_cache,
            dests: AddressCache::new(),
            clock: Clock::start(),
        }
    }

    /// The mesh address for `ipaddr` at instant `now`.
    pub fn resolve_at(&self, ipaddr: &IpAddress, now: u64) -> (destxbmac: u64)
        ensures
            destxbmac == self.resolved(*ipaddr, now),
    {
        if self.broadcast_everything {
            return XB_BROADCAST;
        }
        match self.dests.get(ipaddr) {
            None => XB_BROADCAST,
            Some(entry) => {
                if now as u128 <= entry.expiration {
                    entry.dest
                } else {
                    XB_BROADCAST
                }
            },
        }
    }

    /// The mesh address for `ipaddr` at the instant the clock shows.
    pub fn get_xb_dest_mac(&self, ipaddr: &IpAddress) -> (destxbmac: u64)
        ensures
            exists|now: u64| destxbmac == #[trigger] self.resolved(*ipaddr, now),
    {
        let now: u64 = self.clock.now();
        self.resolve_at(ipaddr, now)
    }

    /// Records that `mesh` was seen sending for `ip` at instant `now`; the
    /// entry stays fresh up to and including `now + max_ip_cache`.
    pub fn record_at(&mut self, ip: IpAddress, mesh: u64, now: u64)
        ensures
            final(self).dests@ == recorded(
                old(self).broadcast_everything,
                old(self).max_ip_cache,
                old(self).dests@,
                ip,
                mesh,
                now,
            ),
            final(self).same_settings(old(self)),
    {
        if !self.broadcast_everything {
            let expiration: u128 = now as u128 + self.max_ip_cache as u128;
            self.dests.insert(ip, CacheEntry { dest: mesh, expiration });
        }
    }

    /// Records that `mesh` was seen sending for `ip` at the instant the clock
    /// shows.
    pub fn record(&mut self, ip: IpAddress, mesh: u64)
        ensures
            exists|now: u64|
                final(self).dests@ == #[trigger] recorded(
                    old(self).broadcast_everything,
                    old(self).max_ip_cache,
                    old(self).dests@,
                    ip,
                    mesh,
                    now,
                ),
            final(self).same_settings(old(self)),
    {
        let now: u64 = self.clock.now();
        self.record_at(ip, mesh, now);
    }

    /// Decides what to do with `tundata`, a packet read from the interface at
    /// instant `now` that parsed as `parsed`: a packet with an IP destination
    /// becomes a job that holds the packet untouched and is addressed to the
    /// mesh node resolved for that destination; anything else is discarded.
    pub fn plan_tun_packet(
        &self,
        parsed: Result<SlicedPacket, ParseError>,
        tundata: &[u8],
        now: u64,
    ) -> (plan: TunPlan)
        ensures
            match parsed {
                Err(e) => plan == TunPlan::Unparsable(e),
                Ok(packet) => match packet.destination() {
                    None => plan == TunPlan::NoIpHeader,
                    Some(d) => {
                        &&& plan matches TunPlan::Transmit { destination, job }
                        &&& destination == d
                        &&& job.dest == self.resolved(d, now)
                        &&& bytes_contents(job.payload) == tundata@
                    },
                },
            },
    {
        match parsed {
            Err(e) => TunPlan::Unparsable(e),
            Ok(packet) => match extract_ip(&packet) {
                None => TunPlan::NoIpHeader,
                Some(destination) => {
                    let destxbmac: u64 = self.resolve_at(&destination, now);
                    TunPlan::Transmit { destination, job: make_job(destxbmac, tundata) }
                },
            },
        }
    }

    /// One step of the direction from the host to the mesh: `tundata` is a
    /// packet just read from the interface.  It is parsed, its destination is
    /// resolved at the instant the clock shows, and the job is offered to
    /// `sender` without waiting.
    ///
    /// Bytes that are no IP packet produce no job.  Whether a job is queued
    /// is up to the queue.
    pub fn frames_from_tun_processor(&self, tundata: &[u8], sender: &Sender<TransmitJob>) -> (r:
        TunOutcome)
        ensures
            match sliced_ip(tundata@) {
                Err(e) => r == TunOutcome::Unparsable(e),
                Ok(packet) => match packet.destination() {
                    None => r == TunOutcome::NoIpHeader,
                    Some(d) => {
                        &&& r is Queued || r is QueueFull || r is Disconnected
                        &&& r.destination() == Some(d)
                        &&& exists|now: u64| r.destxbmac() == Some(#[trigger] self.resolved(d, now))
                        &&& r.refused() matches Some(job) ==> bytes_contents(job.payload)
                            == tundata@
                    },
                },
            },
            !starts_like_ip(tundata@) ==> r is Unparsable,
    {
        let parsed = slice_ip(tundata);
        let now: u64 = self.clock.now();
        match self.plan_tun_packet(parsed, tundata, now) {
            TunPlan::Unparsable(e) => TunOutcome::Unparsable(e),
            TunPlan::NoIpHeader => TunOutcome::NoIpHeader,
            TunPlan::Transmit { destination, job } => {
                let destxbmac: u64 = job.dest;
                let sent = try_send(sender, job);
                TunOutcome::after_send(destination, destxbmac, sent)
            },
        }
    }

    /// Learns from a frame that `fromu64` sent at instant `now` and whose
    /// payload parsed as `parsed`: the sender is recorded under the source
    /// address of the payload's IP header.
    pub fn learn_from_frame(
        &mut self,
        parsed: Result<SlicedPacket, ParseError>,
        fromu64: u64,
        now: u64,
    ) -> (learning: Learning)
        ensures
            learning == learning_of(old(self).broadcast_everything, parsed),
            final(self).dests@ == dests_after_frame(
                old(self).broadcast_everything,
                old(self).max_ip_cache,
                old(self).dests@,
                parsed,
                fromu64,
                now,
            ),
            final(self).same_settings(old(self)),
    {
        match parsed {
            Err(e) => Learning::Unparsable(e),
            Ok(packet) => match extract_source_ip(&packet) {
                None => Learning::NoIpHeader,
                Some(source) => {
                    if self.broadcast_everything {
                        Learning::Disabled(source)
                    } else {
                        self.record_at(source, fromu64, now);
                        Learning::Learned(source)
                    }
                },
            },
        }
    }

    /// One step of the direction from the mesh to the host: `payload` is a
    /// frame's payload as the radio delivered it, `fromu64` the mesh address
    /// of its sender.  The sender is learned at the instant the clock shows;
    /// the payload is handed back unchanged for the interface, whether or not
    /// it is an IP packet.
    pub fn frames_from_xb_processor<'a>(&mut self, fromu64: u64, payload: &'a [u8]) -> (step:
        XbStep<'a>)
        ensures
            step.to_tun@ == payload@,
            step.learning == learning_of(old(self).broadcast_everything, sliced_ip(payload@)),
            exists|now: u64|
                final(self).dests@ == #[trigger] dests_after_frame(
                    old(self).broadcast_everything,
                    old(self).max_ip_cache,
                    old(self).dests@,
                    sliced_ip(payload@),
                    fromu64,
                    now,
                ),
            !starts_like_ip(payload@) ==> step.learning is Unparsable && final(self).dests@ == old(
                self,
            ).dests@,
            final(self).same_settings(old(self)),
    {
        let parsed = slice_ip(payload);
        let now: u64 = self.clock.now();
        let learning = self.learn_from_frame(parsed, fromu64, now);
        XbStep { learning, to_tun: payload }
    }
}

} // verus!
