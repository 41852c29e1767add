//! The control-plane vocabulary of the forwarding table: which incoming
//! address maps to which outgoing address, and the ways a request to change
//! the table can be refused.

use vstd::prelude::*;

verus! {

/// An IPv4 socket address as plain values: the four octets packed
/// big-endian into one number, and the port.
#[derive(PartialEq, Eq, Structural, Clone, Copy, Hash, Debug)]
pub struct AddrV4 {
    /// The packed IPv4 address.
    pub ip: u32,
    /// The port.
    pub port: u16,
}

/// The address a flow arrives on.
#[derive(PartialEq, Eq, Structural, Clone, Copy, Hash, Debug)]
pub struct Incoming(pub AddrV4);

/// The address a flow is forwarded to.
#[derive(PartialEq, Eq, Structural, Clone, Copy, Hash, Debug)]
pub struct Outgoing(pub AddrV4);

/// A request to change the forwarding table.
#[derive(PartialEq, Eq, Structural, Clone, Copy, Debug)]
pub enum ControlRequest {
    /// Program a new flow from the incoming to the outgoing address.
    Create(Incoming, Outgoing),
    /// Remove a programmed flow.
    Delete(Incoming, Outgoing),
}

/// Why a request to program a flow was refused: some part of the pair is
/// already programmed. The refused pair is handed back unchanged.
#[derive(PartialEq, Eq, Structural, Clone, Copy, Debug)]
pub enum ControlError {
    /// The incoming address is already programmed in some flow (and the
    /// outgoing address is not).
    DuplicateIncoming(Incoming, Outgoing),
    /// The outgoing address is already programmed in some flow (and the
    /// incoming address is not).
    DuplicateOutgoing(Incoming, Outgoing),
    /// Both addresses are already programmed.
    DuplicateFlow(Incoming, Outgoing),
}

} // verus!
