//! Gateway core between a host's virtual IP interface and a mesh radio network.
//!
//! IP packets are addressed by IP address, radio frames by a 64-bit mesh
//! address.  The mapping between the two is learned from observed traffic,
//! cached with an expiry, and falls back to broadcast when unknown.

pub mod addr;
pub mod cache;
pub mod packet;
pub mod channel;
pub mod clock;
pub mod tun;
pub mod laws;
