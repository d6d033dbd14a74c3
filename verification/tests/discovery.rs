use rollback_core::discovery::{DiscoveryGate, Peer, PlayerKind};

fn local(id: u64) -> Peer {
    Peer { id, kind: PlayerKind::Local }
}

fn remote(id: u64) -> Peer {
    Peer { id, kind: PlayerKind::Remote }
}

#[test]
fn fresh_gate_is_empty_and_healthy() {
    let gate = DiscoveryGate::new();
    assert!(gate.known_peers().is_empty());
    assert_eq!(gate.known_count(), 0);
    assert!(!gate.has_failed());
}

#[test]
fn peers_are_kept_in_first_seen_order() {
    let mut gate = DiscoveryGate::new();
    gate.record_poll(&vec![local(7)]);
    gate.record_poll(&vec![local(7), remote(3)]);
    let peers = gate.known_peers();
    assert_eq!(peers.len(), 2);
    assert_eq!(peers[0], local(7));
    assert_eq!(peers[1], remote(3));
}

#[test]
fn transport_reordering_does_not_move_known_peers() {
    // The transport may list peers in a different order on a later poll;
    // the cached first-seen order must not change, since it becomes
    // the handle-assignment order.
    let mut gate = DiscoveryGate::new();
    gate.record_poll(&vec![remote(1), remote(2)]);
    gate.record_poll(&vec![remote(2), remote(1), remote(9)]);
    let peers = gate.known_peers();
    assert_eq!(peers[0], remote(1));
    assert_eq!(peers[1], remote(2));
    assert_eq!(peers[2], remote(9));
}

#[test]
fn repeated_polls_are_idempotent() {
    let mut gate = DiscoveryGate::new();
    let observed = vec![local(5), remote(6)];
    gate.record_poll(&observed);
    gate.record_poll(&observed);
    gate.record_poll(&observed);
    assert_eq!(gate.known_count(), 2);
}

#[test]
fn duplicate_ids_within_one_poll_are_cached_once() {
    let mut gate = DiscoveryGate::new();
    gate.record_poll(&vec![remote(4), remote(4), remote(4)]);
    assert_eq!(gate.known_count(), 1);
    assert_eq!(gate.known_peers()[0], remote(4));
}

#[test]
fn failure_is_latched_and_peers_survive_it() {
    let mut gate = DiscoveryGate::new();
    gate.record_poll(&vec![local(1)]);
    gate.record_failure();
    assert!(gate.has_failed());
    gate.record_poll(&vec![local(1), remote(2)]);
    assert!(gate.has_failed());
    assert_eq!(gate.known_count(), 2);
}
