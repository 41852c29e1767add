//! The construction policy: defaults, builder settings, and the
//! bind-candidate selection.

use udp_endpoint::{
    resolution_failure, AddressedUdp, BindPlan, CreateSocketError, OsError, UdpAddr, UdpSocket,
    DEFAULT_ADDRESS, DEFAULT_BUFFER_SIZE,
};

/// The documented defaults: `localhost:0`, a zero-filled 65536-byte buffer,
/// an empty outbound queue.
#[test]
fn builder_defaults() {
    let (address, buffer, outbound) = UdpSocket::builder().into_parts();
    assert_eq!(address, "localhost:0");
    assert_eq!(address, DEFAULT_ADDRESS);
    assert_eq!(buffer.len(), 65536);
    assert_eq!(buffer.len(), DEFAULT_BUFFER_SIZE);
    assert!(buffer.iter().all(|b| *b == 0));
    assert!(outbound.is_empty());
}

/// Each builder method replaces exactly its own piece.
#[test]
fn builder_settings() {
    let dest = UdpAddr::V4 { ip: 9, port: 9 };
    let preloaded = vec![
        AddressedUdp { udp: b"a".to_vec(), address: dest },
        AddressedUdp { udp: b"b".to_vec(), address: dest },
    ];
    let builder = UdpSocket::builder()
        .address("example.invalid:4242".to_string())
        .buffer_size(1024)
        .outbound(preloaded);
    let (address, buffer, outbound) = builder.into_parts();
    assert_eq!(address, "example.invalid:4242");
    assert_eq!(buffer.len(), 1024);
    assert!(buffer.iter().all(|b| *b == 0));
    let queued: Vec<&AddressedUdp> = outbound.iter().collect();
    assert_eq!(queued.len(), 2);
    assert_eq!(queued[0].udp, b"a".to_vec());
    assert_eq!(queued[1].udp, b"b".to_vec());
}

/// A preloaded queue drains in its given order.
#[test]
fn preloaded_outbound_drains_in_order() {
    let dest = UdpAddr::V4 { ip: 9, port: 9 };
    let preloaded = vec![
        AddressedUdp { udp: b"a".to_vec(), address: dest },
        AddressedUdp { udp: b"b".to_vec(), address: dest },
    ];
    let (_, buffer, outbound) = UdpSocket::builder().outbound(preloaded).into_parts();
    let mut endpoint = UdpSocket::assemble(buffer, outbound);
    match endpoint.drain_step(true) {
        udp_endpoint::DrainAction::Send(d) => assert_eq!(d.udp, b"a".to_vec()),
        _ => panic!("expected a send"),
    }
    match endpoint.drain_step(true) {
        udp_endpoint::DrainAction::Send(d) => assert_eq!(d.udp, b"b".to_vec()),
        _ => panic!("expected a send"),
    }
    assert!(matches!(endpoint.drain_step(true), udp_endpoint::DrainAction::Complete));
}

/// Two candidates, the first already in use: construction succeeds by
/// binding the second and reports no error.
#[test]
fn multi_candidate_bind() {
    // The driver resolved two candidates and walks them in order.
    let mut plan = BindPlan::new(2);

    // First candidate: the OS refuses the bind (address in use).
    assert!(!plan.exhausted());
    plan.record_failure(OsError { code: 98 });

    // Second candidate: the bind succeeds, so the driver stops here and
    // assembles the endpoint; no error is ever produced.
    assert!(!plan.exhausted());
    let endpoint = UdpSocket::assemble(vec![0u8; 512], std::collections::VecDeque::new());
    assert_eq!(endpoint.capacity_bytes(), 512);
    assert_eq!(endpoint.pending_sends(), 0);
}

/// When every candidate fails, the error is the last bind failure.
#[test]
fn all_candidates_fail() {
    let mut plan = BindPlan::new(3);
    plan.record_failure(OsError { code: 98 });
    plan.record_failure(OsError { code: 13 });
    plan.record_failure(OsError { code: 99 });
    assert!(plan.exhausted());
    assert_eq!(plan.into_failure(), CreateSocketError::CouldntBind(OsError { code: 99 }));
}

/// When resolution yields no candidates at all, the failure is the
/// distinguished no-usable-address one, not a bind failure.
#[test]
fn no_candidates() {
    let plan = BindPlan::new(0);
    assert!(plan.exhausted());
    assert_eq!(plan.into_failure(), CreateSocketError::NoAddresses);
}

/// A resolution failure is surfaced unchanged, marked as could-not-resolve.
#[test]
fn resolution_failure_is_bad_address() {
    let err = OsError { code: -2 };
    assert_eq!(resolution_failure(err), CreateSocketError::BadAddress(err));
}
