//! The UDP endpoint's verified state: a fixed-capacity receive scratch
//! buffer and a FIFO queue of outbound datagrams.
//!
//! The endpoint is driven from outside by a loop that polls OS readiness and
//! performs the actual receive and send calls. Everything decided between
//! those calls is here:
//!
//! - the inbound path copies each received span out of the scratch buffer
//!   into a fresh payload before the buffer is reused ([`UdpSocket::deliver`]);
//! - the outbound path appends without I/O ([`UdpSocket::start_send`]) and
//!   drains strictly in FIFO order, one send per step, suspending with the
//!   queue intact when the descriptor is not writable
//!   ([`UdpSocket::drain_step`]).

use vstd::prelude::*;

use crate::packet::AddressedUdp;
use crate::addr::UdpAddr;
use std::collections::VecDeque;

verus! {

/// What the payload of a received datagram is, given the bytes of the
/// datagram on the wire and the receiving endpoint's buffer capacity: the
/// bytes as sent, truncated to the capacity. Excess bytes are silently
/// discarded; a too-long datagram is not an error.
pub open spec fn received_payload(data: Seq<u8>, capacity: nat) -> Seq<u8> {
    data.take(vstd::math::min(data.len() as int, capacity as int))
}

/// What one drain step asks its driver to do next.
pub enum DrainAction {
    /// The descriptor is writable and this datagram was at the head of the
    /// queue: issue exactly one send call for it. The datagram is already off
    /// the queue; if the send fails, it is consumed, not retried, and the
    /// rest of the queue is kept for a later drain.
    Send(AddressedUdp),
    /// The descriptor is not writable: suspend, with the queue left intact,
    /// and resume the drain after the OS signals writability.
    Suspend,
    /// The queue is empty: the drain is complete.
    Complete,
}

/// A bound UDP endpoint's state: the receive scratch buffer and the
/// outbound queue.
///
/// The scratch buffer's length is the endpoint's receive capacity, fixed at
/// construction; its contents are reused across receives and are not part of
/// the endpoint's observable state. The queue is unbounded and strictly
/// FIFO: insertion order is send order.
pub struct UdpSocket {
    pub(crate) buffer: Vec<u8>,
    pub(crate) outbound: VecDeque<AddressedUdp>,
}

impl UdpSocket {
    /// The pending outbound datagrams, oldest first.
    pub closed spec fn queue(&self) -> Seq<AddressedUdp> {
        self.outbound@
    }

    /// The receive capacity: how many payload bytes one receive can yield.
    pub closed spec fn capacity(&self) -> nat {
        self.buffer@.len()
    }

    /// Assembles an endpoint around a descriptor the driver has bound: the
    /// given scratch buffer (whose length becomes the fixed capacity) and the
    /// preloaded outbound queue.
    pub fn assemble(buffer: Vec<u8>, outbound: VecDeque<AddressedUdp>) -> (s: UdpSocket)
        ensures
            s.capacity() == buffer@.len(),
            s.queue() == outbound@,
    {
        UdpSocket { buffer, outbound }
    }

    /// The receive capacity, for sizing receive calls.
    pub fn capacity_bytes(&self) -> (n: usize)
        ensures
            n == self.capacity(),
    {
        self.buffer.len()
    }

    /// How many outbound datagrams are pending.
    pub fn pending_sends(&self) -> (n: usize)
        ensures
            n == self.queue().len(),
    {
        self.outbound.len()
    }

    /// Accepts one datagram for sending: appends it at the tail of the
    /// outbound queue. Never performs I/O, never fails, never reorders what
    /// is already queued.
    pub fn start_send(&mut self, item: AddressedUdp)
        ensures
            final(self).queue() == old(self).queue().push(item),
            final(self).capacity() == old(self).capacity(),
    {
        self.outbound.push_back(item);
    }

    /// Takes one drain decision, given whether the OS currently reports the
    /// descriptor writable.
    ///
    /// Not writable: suspend, queue untouched. Writable and empty: the drain
    /// is complete. Writable and non-empty: the head leaves the queue and is
    /// handed out to be sent — exactly the FIFO order of [`Self::start_send`]
    /// calls. A send failure after that costs only the datagram already
    /// handed out; the queue that remains is unchanged and a later drain
    /// resumes from it.
    pub fn drain_step(&mut self, writable: bool) -> (a: DrainAction)
        ensures
            final(self).capacity() == old(self).capacity(),
            !writable ==> a == DrainAction::Suspend && final(self).queue() == old(self).queue(),
            writable && old(self).queue().len() == 0 ==> a == DrainAction::Complete
                && final(self).queue() == old(self).queue(),
            writable && old(self).queue().len() > 0 ==> a == DrainAction::Send(
                old(self).queue().first(),
            ) && final(self).queue() == old(self).queue().drop_first(),
    {
        if !writable {
            return DrainAction::Suspend;
        }
        match self.outbound.pop_front() {
            Some(head) => DrainAction::Send(head),
            None => DrainAction::Complete,
        }
    }

    /// Yields one received datagram: models the OS writing a delivered
    /// datagram's bytes into the scratch buffer — truncated to the buffer's
    /// capacity, the excess silently discarded — and copies the written span
    /// out into a freshly owned payload paired with the source address.
    ///
    /// The payload is a copy, never a view into the live buffer, so it stays
    /// intact when the buffer is reused by the next receive. A zero-length
    /// datagram is a valid receive and yields an empty payload; it does not
    /// end the inbound sequence.
    pub fn deliver(&mut self, data: &[u8], source: UdpAddr) -> (d: AddressedUdp)
        ensures
            d.udp@ == received_payload(data@, old(self).capacity()),
            d.address == source,
            final(self).capacity() == old(self).capacity(),
            final(self).queue() == old(self).queue(),
    {
        let n = if data.len() < self.buffer.len() {
            data.len()
        } else {
            self.buffer.len()
        };
        let mut i: usize = 0;
        while i < n
            invariant
                i <= n,
                n <= data@.len(),
                n <= self.buffer@.len(),
                self.buffer@.len() == old(self).buffer@.len(),
                self.outbound == old(self).outbound,
                forall|j: int| 0 <= j < i ==> self.buffer@[j] == data@[j],
            decreases n - i,
        {
            let b = data[i];
            self.buffer[i] = b;
            i = i + 1;
        }
        let mut payload: Vec<u8> = Vec::new();
        let mut k: usize = 0;
        while k < n
            invariant
                k <= n,
                n <= self.buffer@.len(),
                payload@.len() == k,
                forall|j: int| 0 <= j < k ==> payload@[j] == self.buffer@[j],
            decreases n - k,
        {
            let b = self.buffer[k];
            payload.push(b);
            k = k + 1;
        }
        proof {
            assert(payload@ =~= received_payload(data@, old(self).capacity()));
        }
        AddressedUdp { udp: payload, address: source }
    }
}

/// What a run of consecutive [`UdpSocket::drain_step`] calls with the
/// descriptor writable hands out to be sent: per that contract each step
/// takes the head off the queue, so `steps` steps emit the first `steps`
/// queued datagrams, one send call each, until the queue runs out.
pub open spec fn drain_emits(queue: Seq<AddressedUdp>, steps: nat) -> Seq<AddressedUdp>
    decreases steps,
{
    if steps == 0 || queue.len() == 0 {
        Seq::empty()
    } else {
        seq![queue.first()] + drain_emits(queue.drop_first(), (steps - 1) as nat)
    }
}

/// What is left on the queue after a run of `steps` consecutive
/// [`UdpSocket::drain_step`] calls with the descriptor writable.
pub open spec fn drain_rest(queue: Seq<AddressedUdp>, steps: nat) -> Seq<AddressedUdp>
    decreases steps,
{
    if steps == 0 || queue.len() == 0 {
        queue
    } else {
        drain_rest(queue.drop_first(), (steps - 1) as nat)
    }
}

/// FIFO order: however many datagrams were enqueued, a drain hands them to
/// the OS in exactly the order they were enqueued — `steps` writable drain
/// steps emit precisely the first `steps` datagrams of the queue, never
/// reordered, never coalesced, and leave exactly the rest.
pub proof fn lemma_fifo_order(queue: Seq<AddressedUdp>, steps: nat)
    requires
        steps <= queue.len(),
    ensures
        drain_emits(queue, steps) == queue.take(steps as int),
        drain_rest(queue, steps) == queue.skip(steps as int),
    decreases steps,
{
    if steps == 0 {
        assert(drain_emits(queue, steps) =~= queue.take(0));
        assert(drain_rest(queue, steps) =~= queue.skip(0));
    } else {
        lemma_fifo_order(queue.drop_first(), (steps - 1) as nat);
        assert(queue.take(steps as int) =~= seq![queue.first()] + queue.drop_first().take(
            steps as int - 1,
        ));
        assert(queue.skip(steps as int) =~= queue.drop_first().skip(steps as int - 1));
    }
}

/// Partial-drain resilience: a drain interrupted after any number of steps
/// (the descriptor no longer writable: the step suspends and leaves the
/// queue intact) loses nothing and duplicates nothing — what the first run
/// emitted, followed by what a later drain of the remaining queue emits, is
/// exactly the original queue.
pub proof fn lemma_partial_drain(queue: Seq<AddressedUdp>, steps: nat)
    requires
        steps <= queue.len(),
    ensures
        drain_emits(queue, steps) + drain_emits(
            drain_rest(queue, steps),
            (queue.len() - steps) as nat,
        ) == queue,
{
    lemma_fifo_order(queue, steps);
    lemma_fifo_order(queue.skip(steps as int), (queue.len() - steps) as nat);
    assert(queue.skip(steps as int).take(queue.len() - steps as int) =~= queue.skip(
        steps as int,
    ));
    assert(queue.take(steps as int) + queue.skip(steps as int) =~= queue);
}

/// Round trip: a payload no longer than the receiving endpoint's capacity
/// is received exactly as sent. The sending side hands the queued bytes to
/// the OS unchanged (per [`UdpSocket::drain_step`], which emits the queued
/// datagram itself), and on the receiving side the truncating copy of
/// [`UdpSocket::deliver`] is the identity on payloads within capacity.
pub proof fn lemma_round_trip(payload: Seq<u8>, capacity: nat)
    requires
        payload.len() <= capacity,
    ensures
        received_payload(payload, capacity) == payload,
{
    assert(received_payload(payload, capacity) =~= payload);
}

/// Truncation: a datagram larger than the receiving endpoint's capacity is
/// not an error — the received payload is exactly the first `capacity`
/// bytes, the excess silently discarded.
pub proof fn lemma_truncation(data: Seq<u8>, capacity: nat)
    requires
        data.len() > capacity,
    ensures
        received_payload(data, capacity).len() == capacity,
        received_payload(data, capacity) == data.take(capacity as int),
{
    assert(received_payload(data, capacity) =~= data.take(capacity as int));
}

/// Zero-length datagram: an empty payload is a valid receive yielding an
/// empty payload, whatever the capacity — not an end-of-stream signal (UDP
/// has none).
pub proof fn lemma_zero_length(capacity: nat)
    ensures
        received_payload(Seq::<u8>::empty(), capacity) == Seq::<u8>::empty(),
{
    lemma_round_trip(Seq::<u8>::empty(), capacity);
}

} // verus!
