//! Target addresses, held as plain octets so the engine's logic can be
//! stated over them. The caller converts to and from its own address types.

use vstd::prelude::*;

verus! {

/// An IPv4 address, as its four octets in network order.
#[derive(Clone, Copy, Debug)]
pub struct Ipv4Address {
    pub octets: [u8; 4],
}

/// An IPv6 address, as its sixteen octets in network order.
#[derive(Clone, Copy, Debug)]
pub struct Ipv6Address {
    pub octets: [u8; 16],
}

/// A target address of either family. The family fixes which result variant
/// a transaction produces and never changes after construction.
#[derive(Clone, Copy, Debug)]
pub enum IpAddress {
    V4(Ipv4Address),
    V6(Ipv6Address),
}

} // verus!
