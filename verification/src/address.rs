//! Network identities: the endpoint that names a session and the host that a
//! ban is keyed by.

use vstd::prelude::*;

verus! {

/// The host part of an endpoint. All ports of one host share one ban.
#[derive(Clone, Copy, Debug, PartialEq, Eq, Hash, Structural)]
pub enum IpAddress {
    /// An IPv4 address, its four octets in network order.
    V4(u32),
    /// An IPv6 address, its sixteen octets in network order.
    V6(u128),
}

/// The remote endpoint of one accepted connection: the key of a session.
#[derive(Clone, Copy, Debug, PartialEq, Eq, Hash, Structural)]
pub enum Address {
    /// An IPv4 endpoint.
    V4 { octets: u32, port: u16 },
    /// An IPv6 endpoint, with the flow label and the scope that tell two
    /// such endpoints apart.
    V6 { segments: u128, port: u16, flowinfo: u32, scope_id: u32 },
}

impl Address {
    /// The host of this endpoint.
    pub open spec fn host(self) -> IpAddress {
        match self {
            Address::V4 { octets, .. } => IpAddress::V4(octets),
            Address::V6 { segments, .. } => IpAddress::V6(segments),
        }
    }

    /// The port of this endpoint.
    pub open spec fn port_number(self) -> u16 {
        match self {
            Address::V4 { port, .. } => port,
            Address::V6 { port, .. } => port,
        }
    }

    /// The host of this endpoint.
    pub fn ip(&self) -> (ip: IpAddress)
        ensures
            ip == self.host(),
    {
        match *self {
            Address::V4 { octets, .. } => IpAddress::V4(octets),
            Address::V6 { segments, .. } => IpAddress::V6(segments),
        }
    }

    /// The port of this endpoint.
    pub fn port(&self) -> (port: u16)
        ensures
            port == self.port_number(),
    {
        match *self {
            Address::V4 { port, .. } => port,
            Address::V6 { port, .. } => port,
        }
    }
}

} // verus!
