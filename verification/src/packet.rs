//! The datagram value handed between the endpoint and its callers.

use vstd::prelude::*;

use crate::addr::UdpAddr;
use vstd::std_specs::cmp::PartialEqSpec;

verus! {

/// One UDP datagram together with an address.
///
/// When the endpoint yields a received datagram, `address` is the source the
/// bytes came from; when a datagram is queued for sending, `address` is the
/// destination. The payload is an independent, self-contained copy: it never
/// aliases the endpoint's receive scratch buffer.
#[derive(Eq, Debug)]
pub struct AddressedUdp {
    /// The payload bytes. A received payload may have been truncated to the
    /// receiving endpoint's buffer capacity.
    pub udp: Vec<u8>,
    /// The associated address: source when received, destination when queued.
    pub address: UdpAddr,
}

impl PartialEq for AddressedUdp {
    fn eq(&self, other: &Self) -> (r: bool) {
        let addr_eq = self.address == other.address;
        let udp_eq = self.udp == other.udp;
        proof {
            if self.udp@ == other.udp@ {
                assert(self.udp.eq_spec(&other.udp));
            }
            if self.udp.eq_spec(&other.udp) {
                assert(self.udp@ =~= other.udp@);
            }
        }
        addr_eq && udp_eq
    }
}

impl vstd::std_specs::cmp::PartialEqSpecImpl for AddressedUdp {
    open spec fn obeys_eq_spec() -> bool {
        true
    }

    open spec fn eq_spec(&self, other: &Self) -> bool {
        self.udp@ == other.udp@ && self.address == other.address
    }
}

} // verus!
