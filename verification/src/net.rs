//! Network addresses as plain values.

use vstd::prelude::*;

verus! {

/// An IPv4 or IPv6 address, by its octets in network order.
#[derive(Debug, Clone, Copy, PartialEq, Eq, Hash)]
pub enum IpAddr {
    V4([u8; 4]),
    V6([u8; 16]),
}

/// A socket address: an IPv4 address with a port, or an IPv6 address with a
/// port, its flow information and its scope id.
#[derive(Debug, Clone, Copy, PartialEq, Eq, Hash)]
pub enum SocketAddr {
    V4 { ip: [u8; 4], port: u16 },
    V6 { ip: [u8; 16], port: u16, flowinfo: u32, scope_id: u32 },
}

} // verus!
