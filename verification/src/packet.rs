//! Raw packets: finding the IP header and the two addresses it carries.

use crate::addr::IpAddress;
use vstd::prelude::*;

verus! {

/// The two addresses of an IPv4 header.
#[derive(Clone, Copy, Debug, PartialEq, Eq)]
pub struct Ipv4Endpoints {
    pub source: u32,
    pub destination: u32,
}

/// The two addresses of an IPv6 header.
#[derive(Clone, Copy, Debug, PartialEq, Eq)]
pub struct Ipv6Endpoints {
    pub source: u128,
    pub destination: u128,
}

/// The IP header of a packet, reduced to its addresses.
#[derive(Clone, Copy, Debug, PartialEq, Eq)]
pub enum InternetSlice {
    Ipv4(Ipv4Endpoints),
    Ipv6(Ipv6Endpoints),
}

/// A packet after its headers were told apart.
#[derive(Clone, Copy, Debug, PartialEq, Eq)]
pub struct SlicedPacket {
    /// The IP layer, if one was found.
    pub ip: Option<InternetSlice>,
}

/// Why a byte sequence is no IP packet.
#[derive(Clone, Debug, PartialEq, Eq)]
pub struct ParseError {
    /// The parser's own description of what it stumbled over.
    pub detail: String,
}

/// Whether `data` begins with an IP version number that the parser knows:
/// 4 or 6 in the upper half of the first octet.
pub open spec fn starts_like_ip(data: Seq<u8>) -> bool {
    data.len() > 0 && (data[0] / 16 == 4 || data[0] / 16 == 6)
}

/// What `etherparse::SlicedPacket::from_ip` makes of `data`, reduced to the
/// addresses of the IP header.
pub uninterp spec fn sliced_ip(data: Seq<u8>) -> Result<SlicedPacket, ParseError>;

/// Calls `etherparse::SlicedPacket::from_ip` and keeps, of what it found, the
/// IP header's source and destination, each as the integer its octets spell in
/// network byte order; of a failure, the error's debug text.
///
/// Trusted: the outcome is a function of the bytes alone, and the parser
/// refuses an empty slice and any first octet whose upper half is neither 4
/// nor 6.
#[verifier::external_body]
pub(crate) fn slice_ip(data: &[u8]) -> (r: Result<SlicedPacket, ParseError>)
    ensures
        r == sliced_ip(data@),
        !starts_like_ip(data@) ==> r is Err,
{
    match etherparse::SlicedPacket::from_ip(data) {
        Err(e) => Err(ParseError { detail: format!("{:?}", e) }),
        Ok(p) => Ok(SlicedPacket { ip: match p.ip {
            None => None,
            Some(etherparse::InternetSlice::Ipv4(h)) => Some(InternetSlice::Ipv4(Ipv4Endpoints {
                source: u32::from(h.source_addr()),
                destination: u32::from(h.destination_addr()),
            })),
            Some(etherparse::InternetSlice::Ipv6(h, _)) => Some(InternetSlice::Ipv6(Ipv6Endpoints {
                source: u128::from(h.source_addr()),
                destination: u128::from(h.destination_addr()),
            })),
        } }),
    }
}

impl SlicedPacket {
    /// The address the packet is sent to.
    pub open spec fn destination(self) -> Option<IpAddress> {
        match self.ip {
            Some(InternetSlice::Ipv4(h)) => Some(IpAddress::V4(h.destination)),
            Some(InternetSlice::Ipv6(h)) => Some(IpAddress::V6(h.destination)),
            None => None,
        }
    }

    /// The address the packet was sent from.
    pub open spec fn source(self) -> Option<IpAddress> {
        match self.ip {
            Some(InternetSlice::Ipv4(h)) => Some(IpAddress::V4(h.source)),
            Some(InternetSlice::Ipv6(h)) => Some(IpAddress::V6(h.source)),
            None => None,
        }
    }

}

/// The destination address in the packet's IP header; `None` where the packet
/// has no IP layer.
pub fn extract_ip(packet: &SlicedPacket) -> (r: Option<IpAddress>)
    ensures
        r == packet.destination(),
{
    match packet.ip {
        Some(InternetSlice::Ipv4(h)) => Some(IpAddress::V4(h.destination)),
        Some(InternetSlice::Ipv6(h)) => Some(IpAddress::V6(h.destination)),
        None => None,
    }
}

/// The source address in the packet's IP header; `None` where the packet has
/// no IP layer.
pub fn extract_source_ip(packet: &SlicedPacket) -> (r: Option<IpAddress>)
    ensures
        r == packet.source(),
{
    match packet.ip {
        Some(InternetSlice::Ipv4(h)) => Some(IpAddress::V4(h.source)),
        Some(InternetSlice::Ipv6(h)) => Some(IpAddress::V6(h.source)),
        None => None,
    }
}

} // verus!
