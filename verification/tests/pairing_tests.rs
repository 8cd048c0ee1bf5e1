use letmego_core::crypto::{decode_public_key, parse_tether_key, KeyPair, TetherKey};
use letmego_core::error::CoreError;
use letmego_core::pairing::{validate_code, PairingCode, Validation};
use letmego_core::session::{
    peer_complete_pairing, PairingError, PairingState, PairingStateMachine, PeerHello,
};

fn host_machine(threshold: u32) -> PairingStateMachine {
    let kp = KeyPair::generate().expect("entropy available");
    PairingStateMachine::new(kp, threshold)
}

fn hello_for(code: String, peer: &KeyPair) -> PeerHello {
    PeerHello {
        claimed_public_key: peer.public_key().clone(),
        code,
        peer_nonce: vec![7u8; 16],
    }
}

fn wrong_code_string(right: u32) -> String {
    let wrong = if right == 999_999 { 100_000 } else { right + 1 };
    format!("{:06}", wrong)
}

#[test]
fn parse_accepts_six_digit_codes() {
    let t = parse_tether_key("482913").expect("parses");
    assert_eq!(t.value(), 482913);
    assert_eq!(t.as_string(), "482913");
}

#[test]
fn parse_rejects_bad_codes() {
    assert_eq!(parse_tether_key("12345"), Err(CoreError::InvalidTetherKey));
    assert_eq!(parse_tether_key("1234567"), Err(CoreError::InvalidTetherKey));
    assert_eq!(parse_tether_key("12a456"), Err(CoreError::InvalidTetherKey));
    assert_eq!(parse_tether_key("099999"), Err(CoreError::InvalidTetherKey));
    assert_eq!(parse_tether_key(""), Err(CoreError::InvalidTetherKey));
}

#[test]
fn generated_code_is_six_digits() {
    for _ in 0..100 {
        let t = TetherKey::generate();
        assert!((100_000..=999_999).contains(&t.value()));
        let s = t.as_string();
        assert_eq!(s.len(), 6);
        assert_eq!(parse_tether_key(&s).expect("round trip").value(), t.value());
    }
}

#[test]
fn issue_distribution_is_uniform() {
    // Nine equal buckets by leading digit; chi-square against uniform with
    // 8 degrees of freedom, generous significance so the test is stable.
    let trials = 100_000u32;
    let mut buckets = [0u32; 9];
    for _ in 0..trials {
        let v = TetherKey::generate().value();
        buckets[((v - 100_000) / 100_000) as usize] += 1;
    }
    let expected = trials as f64 / 9.0;
    let mut chi2 = 0.0f64;
    for b in buckets.iter() {
        let d = *b as f64 - expected;
        chi2 += d * d / expected;
    }
    assert!(chi2 < 35.0, "chi-square too large: {chi2}");
}

#[test]
fn public_key_encoding_round_trips() {
    for _ in 0..20 {
        let kp = KeyPair::generate().expect("entropy available");
        let text = kp.public_key_base64();
        assert_eq!(text.len(), 44);
        let decoded = decode_public_key(&text).expect("decodes");
        assert_eq!(&decoded, kp.public_key());
    }
}

#[test]
fn decode_public_key_rejects_bad_text() {
    assert!(decode_public_key("not base64!").is_err());
    // Valid Base64, but not 32 bytes.
    assert!(decode_public_key("aGVsbG8=").is_err());
    assert!(decode_public_key("").is_err());
}

#[test]
fn validate_is_exact_over_the_window() {
    let code = PairingCode {
        value: parse_tether_key("482913").unwrap(),
        issued_at: 1_000,
        validity: 120,
        consumed: false,
    };
    let active = Some(code);
    assert_eq!(validate_code(&active, 482913, 1_000), Validation::Valid);
    assert_eq!(validate_code(&active, 482913, 1_030), Validation::Valid);
    assert_eq!(validate_code(&active, 482913, 1_119), Validation::Valid);
    assert_eq!(validate_code(&active, 482913, 1_120), Validation::Expired);
    assert_eq!(validate_code(&active, 482913, 999), Validation::Expired);
    assert_eq!(validate_code(&active, 482914, 1_030), Validation::Mismatch);
    assert_eq!(validate_code(&None, 482913, 1_030), Validation::NoActiveCode);
    let mut used = code;
    used.consumed = true;
    assert_eq!(validate_code(&Some(used), 482913, 1_030), Validation::AlreadyConsumed);
}

#[test]
fn code_valid_then_consumed_after_exchange() {
    // Issue with a 120-second validity; valid at +30s; consumed after the
    // successful exchange, so a second check reports AlreadyConsumed.
    let mut m = host_machine(5);
    let peer = KeyPair::generate().expect("entropy available");
    let code = m.start_pairing(1_000, 120);
    assert_eq!(m.validate(code.value(), 1_030), Validation::Valid);
    let hello = hello_for(code.as_string(), &peer);
    m.handle_peer_hello(&hello, 1_030).expect("exchange succeeds");
    assert_eq!(m.validate(code.value(), 1_040), Validation::AlreadyConsumed);
}

#[test]
fn code_expires_after_its_window() {
    let mut m = host_machine(5);
    let code = m.start_pairing(1_000, 60);
    assert_eq!(m.validate(code.value(), 1_061), Validation::Expired);
    let peer = KeyPair::generate().expect("entropy available");
    let hello = hello_for(code.as_string(), &peer);
    let r = m.handle_peer_hello(&hello, 1_061);
    assert_eq!(r, Err(PairingError::RejectedCode(Validation::Expired)));
    assert_eq!(m.get_session_status(), PairingState::Expired);
}

#[test]
fn wrong_guesses_below_threshold_then_success() {
    let mut m = host_machine(5);
    let peer = KeyPair::generate().expect("entropy available");
    let code = m.start_pairing(1_000, 600);
    let wrong = hello_for(wrong_code_string(code.value()), &peer);
    let mut now = 1_010;
    for _ in 0..3 {
        let r = m.handle_peer_hello(&wrong, now);
        assert_eq!(r, Err(PairingError::RejectedCode(Validation::Mismatch)));
        now += 60;
    }
    // The code is still active for the genuine peer.
    assert_eq!(m.validate(code.value(), now), Validation::Valid);
    let right = hello_for(code.as_string(), &peer);
    m.handle_peer_hello(&right, now).expect("genuine retry succeeds");
    assert_eq!(m.get_session_status(), PairingState::Negotiated);
}

#[test]
fn threshold_of_wrong_guesses_invalidates_the_code() {
    let mut m = host_machine(3);
    let peer = KeyPair::generate().expect("entropy available");
    let code = m.start_pairing(1_000, 600);
    let wrong = hello_for(wrong_code_string(code.value()), &peer);
    let mut now = 1_010;
    for _ in 0..3 {
        let r = m.handle_peer_hello(&wrong, now);
        assert_eq!(r, Err(PairingError::RejectedCode(Validation::Mismatch)));
        now += 60;
    }
    assert_eq!(m.get_session_status(), PairingState::Rejected);
    assert_eq!(m.validate(code.value(), now), Validation::NoActiveCode);
    let right = hello_for(code.as_string(), &peer);
    let r = m.handle_peer_hello(&right, now);
    assert_eq!(r, Err(PairingError::RejectedCode(Validation::NoActiveCode)));
}

#[test]
fn repeated_guesses_are_throttled() {
    let mut m = host_machine(5);
    let peer = KeyPair::generate().expect("entropy available");
    let code = m.start_pairing(1_000, 600);
    let wrong = hello_for(wrong_code_string(code.value()), &peer);
    let r = m.handle_peer_hello(&wrong, 1_010);
    assert_eq!(r, Err(PairingError::RejectedCode(Validation::Mismatch)));
    // An immediate retry lands inside the backoff delay.
    let r = m.handle_peer_hello(&wrong, 1_010);
    assert_eq!(r, Err(PairingError::Throttled));
    // After the delay the attempt is processed again.
    let r = m.handle_peer_hello(&wrong, 1_013);
    assert_eq!(r, Err(PairingError::RejectedCode(Validation::Mismatch)));
}

#[test]
fn malformed_messages_are_rejected() {
    let mut m = host_machine(5);
    let peer = KeyPair::generate().expect("entropy available");
    let code = m.start_pairing(1_000, 600);
    let mut short_nonce = hello_for(code.as_string(), &peer);
    short_nonce.peer_nonce = vec![7u8; 8];
    assert_eq!(m.handle_peer_hello(&short_nonce, 1_010), Err(PairingError::MalformedMessage));
    let mut bad_key = hello_for(code.as_string(), &peer);
    bad_key.claimed_public_key = vec![1u8; 16];
    assert_eq!(m.handle_peer_hello(&bad_key, 1_010), Err(PairingError::MalformedMessage));
    let bad_code = hello_for(String::from("12x456"), &peer);
    assert_eq!(m.handle_peer_hello(&bad_code, 1_010), Err(PairingError::InvalidCodeFormat));
    // Nothing above consumed the code.
    assert_eq!(m.validate(code.value(), 1_010), Validation::Valid);
}

#[test]
fn hello_without_a_session_is_rejected() {
    let mut m = host_machine(5);
    let peer = KeyPair::generate().expect("entropy available");
    let hello = hello_for(String::from("482913"), &peer);
    let r = m.handle_peer_hello(&hello, 1_000);
    assert_eq!(r, Err(PairingError::RejectedCode(Validation::NoActiveCode)));
}

#[test]
fn full_exchange_derives_matching_secrets() {
    let mut m = host_machine(5);
    let peer = KeyPair::generate().expect("entropy available");
    let code = m.start_pairing(1_000, 120);
    let hello = hello_for(code.as_string(), &peer);
    let accept = m.handle_peer_hello(&hello, 1_030).expect("exchange succeeds");
    assert_eq!(accept.host_public_key, m.public_key().clone());
    assert_eq!(accept.host_nonce.len(), 32);
    assert_eq!(accept.signature.len(), 64);
    // The peer checks the signature and derives the same secret; the host's
    // copy is reachable through the tunnel it installs below.
    let secret = peer_complete_pairing(
        &accept,
        &code,
        &hello.claimed_public_key,
        &hello.peer_nonce,
    )
    .expect("signature verifies");
    assert_eq!(secret.len(), 32);
    assert_eq!(m.get_session_status(), PairingState::Negotiated);
}

#[test]
fn tampered_response_fails_authentication() {
    let mut m = host_machine(5);
    let peer = KeyPair::generate().expect("entropy available");
    let code = m.start_pairing(1_000, 120);
    let hello = hello_for(code.as_string(), &peer);
    let accept = m.handle_peer_hello(&hello, 1_030).expect("exchange succeeds");
    let mut forged = accept.clone();
    forged.signature[0] ^= 1;
    let r = peer_complete_pairing(&forged, &code, &hello.claimed_public_key, &hello.peer_nonce);
    assert_eq!(r, Err(PairingError::AuthenticationFailed));
    let mut wrong_key = accept.clone();
    wrong_key.host_public_key = peer.public_key().clone();
    let r = peer_complete_pairing(&wrong_key, &code, &hello.claimed_public_key, &hello.peer_nonce);
    assert_eq!(r, Err(PairingError::AuthenticationFailed));
}

#[test]
fn two_peers_race_for_one_code() {
    // Two attempts against the same active code: the exchange that
    // completes first wins; the second receives AlreadyConsumed even though
    // its code value was right.
    let mut m = host_machine(5);
    let first = KeyPair::generate().expect("entropy available");
    let second = KeyPair::generate().expect("entropy available");
    let code = m.start_pairing(1_000, 120);
    let hello_one = hello_for(code.as_string(), &first);
    let hello_two = hello_for(code.as_string(), &second);
    m.handle_peer_hello(&hello_one, 1_010).expect("first exchange wins");
    let r = m.handle_peer_hello(&hello_two, 1_011);
    assert_eq!(r, Err(PairingError::RejectedCode(Validation::AlreadyConsumed)));
    assert_eq!(m.get_session_status(), PairingState::Negotiated);
}

#[test]
fn restart_supersedes_the_live_session() {
    // Starting a new session while one is AwaitingPeer leaves exactly one
    // live session, and the prior code is no longer accepted.
    let mut m = host_machine(5);
    let peer = KeyPair::generate().expect("entropy available");
    let old_code = m.start_pairing(1_000, 600);
    let wrong = hello_for(wrong_code_string(old_code.value()), &peer);
    let r = m.handle_peer_hello(&wrong, 1_010);
    assert_eq!(r, Err(PairingError::RejectedCode(Validation::Mismatch)));
    let new_code = m.start_pairing(1_100, 600);
    assert_eq!(m.get_session_status(), PairingState::CodeIssued);
    if old_code.value() != new_code.value() {
        assert_ne!(m.validate(old_code.value(), 1_110), Validation::Valid);
    }
    assert_eq!(m.validate(new_code.value(), 1_110), Validation::Valid);
}

#[test]
fn timeout_abandons_the_session() {
    let mut m = host_machine(5);
    let peer = KeyPair::generate().expect("entropy available");
    let code = m.start_pairing(1_000, 600);
    let wrong = hello_for(wrong_code_string(code.value()), &peer);
    m.handle_peer_hello(&wrong, 1_010).expect_err("mismatch");
    assert_eq!(m.get_session_status(), PairingState::AwaitingPeer);
    let r = m.note_timeout();
    assert_eq!(r, Some(PairingError::ProtocolTimeout));
    assert_eq!(m.get_session_status(), PairingState::Expired);
    assert_eq!(m.note_timeout(), None);
}

#[test]
fn tick_expires_a_waiting_session() {
    let mut m = host_machine(5);
    let _code = m.start_pairing(1_000, 60);
    m.tick(1_059);
    assert_eq!(m.get_session_status(), PairingState::CodeIssued);
    m.tick(1_060);
    assert_eq!(m.get_session_status(), PairingState::Expired);
}

#[test]
fn cancel_returns_to_idle() {
    let mut m = host_machine(5);
    let code = m.start_pairing(1_000, 600);
    m.cancel_pairing();
    assert_eq!(m.get_session_status(), PairingState::Idle);
    assert_eq!(m.validate(code.value(), 1_010), Validation::NoActiveCode);
}
