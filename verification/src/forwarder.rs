//! A packet-forwarding table: a bidirectional map between incoming and
//! outgoing addresses.
//!
//! The table itself is `bimap::BiHashMap`, held behind trusted wrappers
//! whose contracts state what the crate's source shows; the duplicate
//! classification around it is verified. Addresses are keyed by a packed
//! integer so the map's own equality is the plain equality of `u64`.

use vstd::prelude::*;

use crate::interface::{AddrV4, ControlError, ControlRequest, Incoming, Outgoing};

verus! {

#[verifier::external_type_specification]
#[verifier::external_body]
#[verifier::reject_recursive_types(L)]
#[verifier::reject_recursive_types(R)]
#[verifier::reject_recursive_types(LS)]
#[verifier::reject_recursive_types(RS)]
pub struct ExBiHashMap<L, R, LS, RS>(bimap::BiHashMap<L, R, LS, RS>);

/// The pairs a table holds, as the map from each left value to the right
/// value it is paired with. A bimap pairs each left value with at most one
/// right value and vice versa, so this map determines the whole table.
pub uninterp spec fn bimap_pairs(m: bimap::BiHashMap<u64, u64>) -> Map<u64, u64>;

/// Whether a table's map of pairs holds nothing.
pub open spec fn no_pairs(pairs: Map<u64, u64>) -> bool {
    pairs == Map::<u64, u64>::empty()
}

/// Relies on bimap::BiHashMap::new: a freshly created bimap holds no pairs.
#[verifier::external_body]
fn table_new() -> (m: bimap::BiHashMap<u64, u64>)
    ensures
        no_pairs(bimap_pairs(m)),
{
    bimap::BiHashMap::new()
}

/// Relies on bimap::BiHashMap::insert_no_overwrite: the pair is inserted
/// (and `Ok` returned) exactly when neither its left value nor its right
/// value is already present in the table; otherwise the table is unchanged.
#[verifier::external_body]
fn table_insert_no_overwrite(m: &mut bimap::BiHashMap<u64, u64>, left: u64, right: u64) -> (inserted:
    bool)
    ensures
        if bimap_pairs(*old(m)).contains_key(left) || bimap_pairs(*old(m)).contains_value(right) {
            !inserted && bimap_pairs(*final(m)) == bimap_pairs(*old(m))
        } else {
            inserted && bimap_pairs(*final(m)) == bimap_pairs(*old(m)).insert(left, right)
        },
{
    m.insert_no_overwrite(left, right).is_ok()
}

/// Relies on bimap::BiHashMap::get_by_left: returns the right value paired
/// with the given left value, or `None` when the left value is absent.
#[verifier::external_body]
fn table_get_by_left(m: &bimap::BiHashMap<u64, u64>, left: u64) -> (r: Option<u64>)
    ensures
        match r {
            Some(right) => bimap_pairs(*m).contains_key(left) && bimap_pairs(*m)[left] == right,
            None => !bimap_pairs(*m).contains_key(left),
        },
{
    m.get_by_left(&left).copied()
}

/// Relies on bimap::BiHashMap::get_by_right: returns the left value paired
/// with the given right value, or `None` when no pair holds that right
/// value.
#[verifier::external_body]
fn table_get_by_right(m: &bimap::BiHashMap<u64, u64>, right: u64) -> (r: Option<u64>)
    ensures
        match r {
            Some(left) => bimap_pairs(*m).contains_key(left) && bimap_pairs(*m)[left] == right,
            None => !bimap_pairs(*m).contains_value(right),
        },
{
    m.get_by_right(&right).copied()
}

/// The key an address is filed under: the packed address and port as one
/// number, so that two addresses collide exactly when they are equal.
pub open spec fn addr_key(a: AddrV4) -> u64 {
    (a.ip * 0x10000 + a.port) as u64
}

/// Computes [`addr_key`].
pub fn key_of(a: AddrV4) -> (k: u64)
    ensures
        k == addr_key(a),
{
    a.ip as u64 * 0x10000 + a.port as u64
}

/// What programming a flow does: `Ok` inserts the pair exactly when neither
/// address is in use; otherwise the table is unchanged and the error names
/// which side was the duplicate, handing the refused pair back.
pub open spec fn create_outcome(
    pre: Map<u64, u64>,
    post: Map<u64, u64>,
    incoming: Incoming,
    outgoing: Outgoing,
    r: Result<(), ControlError>,
) -> bool {
    let ik = addr_key(incoming.0);
    let ok = addr_key(outgoing.0);
    match r {
        Ok(()) => !pre.contains_key(ik) && !pre.contains_value(ok) && post == pre.insert(ik, ok),
        Err(e) => post == pre && match e {
            ControlError::DuplicateIncoming(i, o) => i == incoming && o == outgoing
                && pre.contains_key(ik) && !pre.contains_value(ok),
            ControlError::DuplicateOutgoing(i, o) => i == incoming && o == outgoing
                && !pre.contains_key(ik) && pre.contains_value(ok),
            ControlError::DuplicateFlow(i, o) => i == incoming && o == outgoing
                && pre.contains_key(ik) && pre.contains_value(ok),
        },
    }
}

/// The forwarding table: each programmed flow maps one incoming address to
/// one outgoing address, both unique across the table.
pub struct Forwarder {
    table: bimap::BiHashMap<u64, u64>,
}

impl Forwarder {
    /// The programmed flows, as the map from each incoming address's key to
    /// the paired outgoing address's key.
    pub closed spec fn flows(&self) -> Map<u64, u64> {
        bimap_pairs(self.table)
    }

    /// An empty table: no flows programmed.
    pub fn new() -> (f: Forwarder)
        ensures
            f.flows() == Map::<u64, u64>::empty(),
    {
        Forwarder { table: table_new() }
    }

    /// Programs a flow, refusing any duplicate: a duplicate incoming
    /// address, a duplicate outgoing address, or a pair where both are
    /// taken. On refusal the table is unchanged.
    pub fn apply_create(&mut self, incoming: Incoming, outgoing: Outgoing) -> (r: Result<
        (),
        ControlError,
    >)
        ensures
            create_outcome(old(self).flows(), final(self).flows(), incoming, outgoing, r),
    {
        let ik = key_of(incoming.0);
        let ok = key_of(outgoing.0);
        if table_insert_no_overwrite(&mut self.table, ik, ok) {
            Ok(())
        } else {
            let by_right = table_get_by_right(&self.table, ok);
            let by_left = table_get_by_left(&self.table, ik);
            match (by_right, by_left) {
                (Some(_), None) => Err(ControlError::DuplicateOutgoing(incoming, outgoing)),
                (None, Some(_)) => Err(ControlError::DuplicateIncoming(incoming, outgoing)),
                (Some(_), Some(_)) => Err(ControlError::DuplicateFlow(incoming, outgoing)),
                (None, None) => {
                    proof {
                        assert(false);
                    }
                    vstd::pervasive::unreached()
                },
            }
        }
    }

    /// Applies one control request to the table. Only programming a flow is
    /// implemented; removal has no settled meaning yet, so a `Delete`
    /// request is outside this function's contract.
    pub fn control(&mut self, request: ControlRequest) -> (r: Result<(), ControlError>)
        requires
            request matches ControlRequest::Create(_, _),
        ensures
            match request {
                ControlRequest::Create(i, o) => create_outcome(
                    old(self).flows(),
                    final(self).flows(),
                    i,
                    o,
                    r,
                ),
                ControlRequest::Delete(_, _) => false,
            },
    {
        match request {
            ControlRequest::Create(incoming, outgoing) => self.apply_create(incoming, outgoing),
            ControlRequest::Delete(_, _) => vstd::pervasive::unreached(),
        }
    }
}

} // verus!
