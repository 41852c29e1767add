//! The forwarding table's create operation and its duplicate refusals, and
//! the prefix buffer.

use udp_endpoint::{
    AddrV4, ControlError, ControlRequest, Forwarder, Incoming, Intellibuf, Outgoing,
};

fn incoming(ip: u32, port: u16) -> Incoming {
    Incoming(AddrV4 { ip, port })
}

fn outgoing(ip: u32, port: u16) -> Outgoing {
    Outgoing(AddrV4 { ip, port })
}

/// A fresh pair is programmed; each kind of duplicate is refused with the
/// pair handed back, and the table is left unchanged by a refusal.
#[test]
fn create_and_duplicates() {
    let mut table = Forwarder::new();
    let a = incoming(0x0A00_0001, 1000);
    let b = outgoing(0x0A00_0002, 2000);
    let c = incoming(0x0A00_0003, 3000);
    let d = outgoing(0x0A00_0004, 4000);

    assert!(table.apply_create(a, b).is_ok());

    // The incoming address is taken.
    assert_eq!(table.apply_create(a, d), Err(ControlError::DuplicateIncoming(a, d)));

    // The outgoing address is taken.
    assert_eq!(table.apply_create(c, b), Err(ControlError::DuplicateOutgoing(c, b)));

    // Both are taken: the exact pair is already programmed.
    assert_eq!(table.apply_create(a, b), Err(ControlError::DuplicateFlow(a, b)));

    // The refusals changed nothing: a fresh pair still goes in.
    assert!(table.apply_create(c, d).is_ok());
}

/// Addresses that differ only in the port are different addresses.
#[test]
fn port_distinguishes_addresses() {
    let mut table = Forwarder::new();
    assert!(table.apply_create(incoming(1, 10), outgoing(2, 20)).is_ok());
    assert!(table.apply_create(incoming(1, 11), outgoing(2, 21)).is_ok());
}

/// A create request through the control interface behaves as the direct
/// operation does.
#[test]
fn control_create() {
    let mut table = Forwarder::new();
    let a = incoming(1, 1);
    let b = outgoing(2, 2);
    assert!(table.control(ControlRequest::Create(a, b)).is_ok());
    assert_eq!(
        table.control(ControlRequest::Create(a, b)),
        Err(ControlError::DuplicateFlow(a, b))
    );
}

/// The prefix buffer hands out exactly the bytes up to its watermark.
#[test]
fn intellibuf_current_slice() {
    let buf = Intellibuf::new([1u8, 2, 3, 4, 5], 3);
    assert_eq!(buf.current_slice(), &[1u8, 2, 3][..]);

    let empty = Intellibuf::new([9u8; 4], 0);
    assert_eq!(empty.current_slice(), &[][..]);

    let full = Intellibuf::new([7u8; 2], 2);
    assert_eq!(full.current_slice(), &[7u8, 7][..]);
}
