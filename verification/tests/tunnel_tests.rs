use letmego_core::crypto::KeyPair;
use letmego_core::network::{
    backoff_delay_secs, should_retry, ApplyFailure, DegradeReason, TunnelConfig, TunnelStatus,
    WireGuardManager,
};
use letmego_core::session::{PairingError, PairingState, PairingStateMachine, PeerHello};
use letmego_core::ConfigManager;

fn sample_config() -> TunnelConfig {
    TunnelConfig {
        local_public: vec![1u8; 32],
        peer_public: vec![2u8; 32],
        session_key: vec![3u8; 32],
        local_addr: 0x0A00_0001,
        peer_addr: 0x0A00_0002,
        keepalive: 25,
    }
}

#[test]
fn config_manager_constructs() {
    assert!(ConfigManager::new().is_ok());
}

#[test]
fn apply_is_idempotent() {
    let mut m = WireGuardManager::new().expect("constructs");
    assert_eq!(m.status(0), TunnelStatus::Down);
    let cfg = sample_config();
    m.apply(&cfg).expect("first apply succeeds");
    let after_once = m.status(10);
    m.apply(&cfg).expect("second apply succeeds");
    assert_eq!(m.status(10), after_once);
    assert_eq!(m.status(10), TunnelStatus::Establishing);
    // Also idempotent after a handshake was observed.
    m.record_handshake(20);
    assert_eq!(m.status(30), TunnelStatus::Up(20));
    m.apply(&cfg).expect("reapply succeeds");
    assert_eq!(m.status(30), TunnelStatus::Up(20));
}

#[test]
fn replacing_config_resets_the_tunnel() {
    let mut m = WireGuardManager::new().expect("constructs");
    let cfg = sample_config();
    m.apply(&cfg).expect("first apply succeeds");
    m.record_handshake(20);
    let mut other = sample_config();
    other.peer_addr = 0x0A00_0003;
    m.apply(&other).expect("replacement succeeds");
    assert_eq!(m.status(30), TunnelStatus::Establishing);
}

#[test]
fn status_tracks_handshakes() {
    let mut m = WireGuardManager::new().expect("constructs");
    let cfg = sample_config();
    m.apply(&cfg).expect("apply succeeds");
    m.record_handshake(100);
    assert_eq!(m.status(100), TunnelStatus::Up(100));
    // Within three keepalive intervals (75 s) the tunnel counts as up.
    assert_eq!(m.status(175), TunnelStatus::Up(100));
    assert_eq!(
        m.status(176),
        TunnelStatus::Degraded(DegradeReason::HandshakeTimeout)
    );
}

#[test]
fn bad_configurations_are_refused_atomically() {
    let mut m = WireGuardManager::new().expect("constructs");
    let mut conflict = sample_config();
    conflict.peer_addr = conflict.local_addr;
    assert_eq!(m.apply(&conflict), Err(ApplyFailure::AddressConflict));
    assert_eq!(m.status(0), TunnelStatus::Down);
    let mut zero_addr = sample_config();
    zero_addr.local_addr = 0;
    assert_eq!(m.apply(&zero_addr), Err(ApplyFailure::AddressConflict));
    let mut bad_key = sample_config();
    bad_key.session_key = vec![3u8; 16];
    assert_eq!(m.apply(&bad_key), Err(ApplyFailure::InvalidKey));
    let mut bad_keepalive = sample_config();
    bad_keepalive.keepalive = 0;
    assert_eq!(m.apply(&bad_keepalive), Err(ApplyFailure::BadKeepalive));
    // A failed apply left nothing behind; a good one still works.
    m.apply(&sample_config()).expect("good config applies");
}

#[test]
fn teardown_is_tolerant() {
    let mut m = WireGuardManager::new().expect("constructs");
    m.teardown();
    assert_eq!(m.status(0), TunnelStatus::Down);
    m.apply(&sample_config()).expect("apply succeeds");
    m.teardown();
    assert_eq!(m.status(0), TunnelStatus::Down);
    m.teardown();
    assert_eq!(m.status(0), TunnelStatus::Down);
}

#[test]
fn retry_policy_is_bounded_and_transient_only() {
    assert!(should_retry(ApplyFailure::ResourceBusy, 0, 3));
    assert!(should_retry(ApplyFailure::ResourceBusy, 2, 3));
    assert!(!should_retry(ApplyFailure::ResourceBusy, 3, 3));
    assert!(!should_retry(ApplyFailure::AddressConflict, 0, 3));
    assert!(!should_retry(ApplyFailure::InvalidKey, 0, 3));
    assert!(!should_retry(ApplyFailure::BadKeepalive, 0, 3));
}

#[test]
fn backoff_doubles_and_caps() {
    assert_eq!(backoff_delay_secs(0), 1);
    assert_eq!(backoff_delay_secs(1), 2);
    assert_eq!(backoff_delay_secs(2), 4);
    assert_eq!(backoff_delay_secs(5), 32);
    assert_eq!(backoff_delay_secs(6), 64);
    assert_eq!(backoff_delay_secs(60), 64);
}

fn negotiated_machine() -> PairingStateMachine {
    let kp = KeyPair::generate().expect("entropy available");
    let peer = KeyPair::generate().expect("entropy available");
    let mut m = PairingStateMachine::new(kp, 5);
    let code = m.start_pairing(1_000, 120);
    let hello = PeerHello {
        claimed_public_key: peer.public_key().clone(),
        code: code.as_string(),
        peer_nonce: vec![9u8; 24],
    };
    m.handle_peer_hello(&hello, 1_010).expect("exchange succeeds");
    m
}

#[test]
fn negotiated_session_brings_the_tunnel_up() {
    let mut m = negotiated_machine();
    m.apply_tunnel(0x0A00_0001, 0x0A00_0002, 25).expect("apply succeeds");
    assert_eq!(m.get_session_status(), PairingState::TunnelActive);
    assert_eq!(m.get_tunnel_status(1_020), TunnelStatus::Establishing);
    m.note_handshake(1_030);
    assert_eq!(m.get_tunnel_status(1_040), TunnelStatus::Up(1_030));
}

#[test]
fn address_conflict_fails_the_session() {
    // The stack refuses the configuration: the session moves to Failed, no
    // tunnel handle remains allocated, and a redundant teardown (via
    // cancel) succeeds without error.
    let mut m = negotiated_machine();
    let r = m.apply_tunnel(0x0A00_0001, 0x0A00_0001, 25);
    assert_eq!(
        r,
        Err(PairingError::TunnelApplyFailed(ApplyFailure::AddressConflict))
    );
    assert_eq!(m.get_session_status(), PairingState::Failed);
    assert_eq!(m.get_tunnel_status(1_020), TunnelStatus::Down);
    m.cancel_pairing();
    assert_eq!(m.get_session_status(), PairingState::Idle);
    assert_eq!(m.get_tunnel_status(1_020), TunnelStatus::Down);
}

#[test]
fn apply_needs_a_negotiated_session() {
    let kp = KeyPair::generate().expect("entropy available");
    let mut m = PairingStateMachine::new(kp, 5);
    assert_eq!(m.apply_tunnel(1, 2, 25), Err(PairingError::WrongState));
    m.start_pairing(1_000, 120);
    assert_eq!(m.apply_tunnel(1, 2, 25), Err(PairingError::WrongState));
}

#[test]
fn disconnect_returns_to_idle() {
    let mut m = negotiated_machine();
    m.apply_tunnel(0x0A00_0001, 0x0A00_0002, 25).expect("apply succeeds");
    m.cancel_pairing();
    assert_eq!(m.get_session_status(), PairingState::Idle);
    assert_eq!(m.get_tunnel_status(2_000), TunnelStatus::Down);
}
