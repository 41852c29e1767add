//! Construction policy for a [`UdpSocket`].
//!
//! A user-supplied address specification may resolve to zero, one or many
//! concrete addresses. The driver resolves it and tries to bind each
//! candidate in resolution order, stopping at the first success; the
//! decisions along the way — which failure to keep, what to report when the
//! candidates run out, what a fresh endpoint is assembled from — are the
//! verified pieces here.

use vstd::prelude::*;

use crate::packet::AddressedUdp;
use crate::socket::UdpSocket;
use std::collections::VecDeque;

verus! {

/// The default address specification a builder starts with: a loopback name
/// with port `0`, so the OS assigns a free ephemeral port.
pub const DEFAULT_ADDRESS: &'static str = "localhost:0";

/// The default receive-buffer capacity in bytes.
pub const DEFAULT_BUFFER_SIZE: usize = 65536;

/// A plain-value stand-in for one OS-level failure: its raw error code
/// (`0` when the OS gave none).
#[derive(PartialEq, Eq, Structural, Clone, Copy, Debug)]
pub struct OsError {
    /// The raw OS error code.
    pub code: i32,
}

/// Why an endpoint could not be created.
#[derive(PartialEq, Eq, Structural, Clone, Copy, Debug)]
pub enum CreateSocketError {
    /// The address specification could not be resolved to any concrete
    /// addresses at all (malformed specification, resolver failure). The
    /// underlying failure is surfaced unchanged.
    BadAddress(OsError),
    /// Resolution succeeded but produced an empty candidate set, so no bind
    /// was ever attempted. Distinguished from a bind failure.
    NoAddresses,
    /// Every resolved candidate failed to bind; holds the failure of the
    /// last candidate tried.
    CouldntBind(OsError),
}

/// The failure owed to the caller when the address specification could not
/// be resolved at all: the resolver's failure, surfaced unchanged but marked
/// as could-not-resolve, distinct from any bind failure.
pub fn resolution_failure(err: OsError) -> (e: CreateSocketError)
    ensures
        e == CreateSocketError::BadAddress(err),
{
    CreateSocketError::BadAddress(err)
}

/// The bind-attempt policy: try each resolved candidate in order, keep only
/// the most recent failure, and stop at the first success.
///
/// The driver asks [`Self::exhausted`] before each attempt, reports each
/// failed bind with [`Self::record_failure`], and — only once every
/// candidate has failed — turns the plan into the error owed to the caller
/// with [`Self::into_failure`].
pub struct BindPlan {
    remaining: usize,
    last_err: Option<OsError>,
}

impl BindPlan {
    /// How many candidates are still to be tried.
    pub closed spec fn candidates_left(&self) -> nat {
        self.remaining as nat
    }

    /// The most recent bind failure, if any candidate failed yet.
    pub closed spec fn last_failure(&self) -> Option<OsError> {
        self.last_err
    }

    /// A fresh plan over `candidates` resolved addresses, none tried yet.
    pub fn new(candidates: usize) -> (p: Self)
        ensures
            p.candidates_left() == candidates,
            p.last_failure() is None,
    {
        BindPlan { remaining: candidates, last_err: None }
    }

    /// Whether every candidate has been tried and failed.
    pub fn exhausted(&self) -> (b: bool)
        ensures
            b == (self.candidates_left() == 0),
    {
        self.remaining == 0
    }

    /// Records that the next candidate in order failed to bind with `err`.
    /// Only the most recent failure is kept; earlier ones are forgotten.
    pub fn record_failure(&mut self, err: OsError)
        requires
            old(self).candidates_left() > 0,
        ensures
            final(self).candidates_left() == old(self).candidates_left() - 1,
            final(self).last_failure() == Some(err),
    {
        self.remaining = self.remaining - 1;
        self.last_err = Some(err);
    }

    /// The failure owed to the caller once no candidate bound: the last
    /// bind failure if any candidate was tried, and the distinguished
    /// no-usable-address failure if resolution produced no candidates.
    pub fn into_failure(self) -> (e: CreateSocketError)
        requires
            self.candidates_left() == 0,
        ensures
            e == match self.last_failure() {
                Some(os) => CreateSocketError::CouldntBind(os),
                None => CreateSocketError::NoAddresses,
            },
    {
        match self.last_err {
            Some(os) => CreateSocketError::CouldntBind(os),
            None => CreateSocketError::NoAddresses,
        }
    }
}

/// Builder for a [`UdpSocket`]: an address specification, a receive scratch
/// buffer, and a preloaded outbound queue, each with a documented default.
pub struct UdpSocketBuilder {
    pub(crate) address: String,
    pub(crate) buffer: Vec<u8>,
    pub(crate) outbound: VecDeque<AddressedUdp>,
}

impl UdpSocketBuilder {
    /// The address specification to resolve and bind.
    pub closed spec fn address_spec(&self) -> Seq<char> {
        self.address@
    }

    /// The receive scratch buffer the endpoint will start with.
    pub closed spec fn buffer_spec(&self) -> Seq<u8> {
        self.buffer@
    }

    /// The outbound datagrams the endpoint's queue will be preloaded with.
    pub closed spec fn outbound_spec(&self) -> Seq<AddressedUdp> {
        self.outbound@
    }

    /// Replaces the address specification to bind to.
    pub fn address(self, addrs: String) -> (b: Self)
        ensures
            b.address_spec() == addrs@,
            b.buffer_spec() == self.buffer_spec(),
            b.outbound_spec() == self.outbound_spec(),
    {
        let mut b = self;
        b.address = addrs;
        b
    }

    /// Replaces the receive buffer with a zero-filled one of `size` bytes:
    /// the endpoint's capacity. Bytes of a datagram beyond `size` will be
    /// discarded on receive.
    pub fn buffer_size(self, size: usize) -> (b: Self)
        ensures
            b.address_spec() == self.address_spec(),
            b.buffer_spec().len() == size,
            forall|i: int| 0 <= i < size ==> b.buffer_spec()[i] == 0u8,
            b.outbound_spec() == self.outbound_spec(),
    {
        let mut b = self;
        b.buffer = vec![0u8; size];
        b
    }

    /// Replaces the preloaded queue of datagrams to send out once the
    /// endpoint is first drained, in the given order.
    pub fn outbound(self, outbound: Vec<AddressedUdp>) -> (b: Self)
        ensures
            b.address_spec() == self.address_spec(),
            b.buffer_spec() == self.buffer_spec(),
            b.outbound_spec() == outbound@,
    {
        let mut rest = outbound;
        let mut queue: VecDeque<AddressedUdp> = VecDeque::new();
        let ghost all = rest@;
        while rest.len() > 0
            invariant
                queue@ + rest@ == all,
            decreases rest@.len(),
        {
            let d = rest.remove(0);
            queue.push_back(d);
        }
        proof {
            assert(queue@ =~= all);
        }
        let mut b = self;
        b.outbound = queue;
        b
    }

    /// Hands the builder's pieces to the driver that resolves the address
    /// and binds a descriptor: the address specification, the scratch
    /// buffer, and the preloaded queue, unchanged.
    pub fn into_parts(self) -> (r: (String, Vec<u8>, VecDeque<AddressedUdp>))
        ensures
            r.0@ == self.address_spec(),
            r.1@ == self.buffer_spec(),
            r.2@ == self.outbound_spec(),
    {
        (self.address, self.buffer, self.outbound)
    }
}

/// The documented defaults: `localhost:0` (an OS-assigned free port), a
/// zero-filled buffer of [`DEFAULT_BUFFER_SIZE`] bytes, and an empty
/// outbound queue.
impl Default for UdpSocketBuilder {
    fn default() -> (b: Self)
        ensures
            b.address_spec() == DEFAULT_ADDRESS@,
            b.buffer_spec().len() == DEFAULT_BUFFER_SIZE,
            forall|i: int| 0 <= i < DEFAULT_BUFFER_SIZE ==> b.buffer_spec()[i] == 0u8,
            b.outbound_spec() == Seq::<AddressedUdp>::empty(),
    {
        UdpSocketBuilder {
            address: DEFAULT_ADDRESS.to_owned(),
            buffer: vec![0u8; DEFAULT_BUFFER_SIZE],
            outbound: VecDeque::new(),
        }
    }
}

impl UdpSocket {
    /// A builder preloaded with the documented defaults.
    pub fn builder() -> (b: UdpSocketBuilder)
        ensures
            b.address_spec() == DEFAULT_ADDRESS@,
            b.buffer_spec().len() == DEFAULT_BUFFER_SIZE,
            forall|i: int| 0 <= i < DEFAULT_BUFFER_SIZE ==> b.buffer_spec()[i] == 0u8,
            b.outbound_spec() == Seq::<AddressedUdp>::empty(),
    {
        UdpSocketBuilder::default()
    }
}

} // verus!
