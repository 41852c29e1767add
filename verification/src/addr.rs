//! Plain-value model of a network socket address.
//!
//! The endpoint never inspects an address beyond copying it around and
//! comparing it for equality, so an address is held as its raw numeric
//! parts: an IPv4 or IPv6 address together with a port.

use vstd::prelude::*;

verus! {

/// A socket address as plain values: the numeric IP address and the port.
///
/// A received datagram carries the source address in this form; a queued
/// outbound datagram carries its destination.
#[derive(PartialEq, Eq, Structural, Clone, Copy, Hash, Debug)]
pub enum UdpAddr {
    /// An IPv4 address (the four octets packed big-endian into one number)
    /// with a port.
    V4 { ip: u32, port: u16 },
    /// An IPv6 address (the sixteen octets packed big-endian into one
    /// number) with a port.
    V6 { ip: u128, port: u16 },
}

impl UdpAddr {
    /// The port, whichever address family the address belongs to.
    pub fn port(&self) -> (p: u16)
        ensures
            p == self.spec_port(),
    {
        match self {
            UdpAddr::V4 { port, .. } => *port,
            UdpAddr::V6 { port, .. } => *port,
        }
    }

    /// The port of the address, as seen by contracts.
    pub open spec fn spec_port(&self) -> u16 {
        match self {
            UdpAddr::V4 { port, .. } => *port,
            UdpAddr::V6 { port, .. } => *port,
        }
    }
}

} // verus!
