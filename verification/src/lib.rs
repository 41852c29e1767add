//! A non-blocking UDP endpoint that acts both as a producer of received
//! datagrams and as a consumer of datagrams queued for sending.
//!
//! The endpoint itself is a plain state machine: it owns a fixed-capacity
//! receive scratch buffer and a FIFO queue of outbound datagrams. All OS
//! interaction (readiness polling, the actual receive and send calls) is
//! driven from outside; the decisions taken between those calls are what
//! this crate states and proves.

mod addr;
mod builder;
mod forwarder;
mod intellibuf;
mod interface;
mod packet;
mod socket;

pub use addr::UdpAddr;
pub use builder::{resolution_failure, BindPlan, CreateSocketError, OsError, UdpSocketBuilder};
pub use builder::{DEFAULT_ADDRESS, DEFAULT_BUFFER_SIZE};
pub use forwarder::{addr_key, create_outcome, Forwarder};
pub use intellibuf::Intellibuf;
pub use interface::{AddrV4, ControlError, ControlRequest, Incoming, Outgoing};
pub use packet::AddressedUdp;
pub use socket::{DrainAction, UdpSocket};
pub use socket::{drain_emits, drain_rest, received_payload};
pub use socket::{lemma_fifo_order, lemma_partial_drain, lemma_round_trip, lemma_truncation, lemma_zero_length};