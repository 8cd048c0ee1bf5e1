//! Pairing protocol and session state machine.
//!
//! The protocol is a two-message exchange: the peer sends its claimed
//! public key, the candidate pairing code and a nonce; on success the host
//! answers with its public key, its own nonce and a signature over that
//! response, and both sides derive the same shared tunnel secret by hashing
//! the exchange.  The state machine serializes every transition of the one
//! live session.

use vstd::prelude::*;
use crate::crypto::KeyPair;
use crate::crypto::TetherKey;
use crate::crypto::code_value_of;
use crate::crypto::ed25519_verify_of;
use crate::crypto::is_code_format;
use crate::crypto::os_random_bytes;
use crate::crypto::parse_tether_key;
use crate::crypto::sha512;
use crate::crypto::sha512_of;
use crate::crypto::verify_bytes;
use crate::network::ApplyFailure;
use crate::network::TunnelConfig;
use crate::network::TunnelConfigV;
use crate::network::TunnelStatus;
use crate::network::WireGuardManager;
use crate::network::WireGuardManagerV;
use crate::network::apply_spec;
use crate::network::backoff_delay_secs;
use crate::network::backoff_spec;
use crate::network::clone_bytes;
use crate::network::config_failure;
use crate::network::config_ok;
use crate::network::status_spec;
use crate::pairing::PairingCode;
use crate::pairing::Validation;
use crate::pairing::validate_code;
use crate::pairing::validate_spec;

verus! {

/// First protocol message, peer to host.
#[derive(Debug, Clone, PartialEq, Eq)]
pub struct PeerHello {
    /// The peer's claimed public key, 32 bytes.
    pub claimed_public_key: Vec<u8>,
    /// The candidate pairing code as typed by the user.
    pub code: String,
    /// The peer's nonce, 16 to 64 bytes.
    pub peer_nonce: Vec<u8>,
}

/// Ghost model of the first protocol message.
pub struct PeerHelloV {
    pub claimed_public_key: Seq<u8>,
    pub code: Seq<char>,
    pub peer_nonce: Seq<u8>,
}

impl View for PeerHello {
    type V = PeerHelloV;

    open spec fn view(&self) -> PeerHelloV {
        PeerHelloV {
            claimed_public_key: self.claimed_public_key@,
            code: self.code@,
            peer_nonce: self.peer_nonce@,
        }
    }
}

/// Second protocol message on success, host to peer.
#[derive(Debug, Clone, PartialEq, Eq)]
pub struct HostAccept {
    /// The host's public key, 32 bytes.
    pub host_public_key: Vec<u8>,
    /// The host's nonce, 32 bytes.
    pub host_nonce: Vec<u8>,
    /// Signature over the response payload, 64 bytes.
    pub signature: Vec<u8>,
}

/// Ghost model of the second protocol message.
pub struct HostAcceptV {
    pub host_public_key: Seq<u8>,
    pub host_nonce: Seq<u8>,
    pub signature: Seq<u8>,
}

impl View for HostAccept {
    type V = HostAcceptV;

    open spec fn view(&self) -> HostAcceptV {
        HostAcceptV {
            host_public_key: self.host_public_key@,
            host_nonce: self.host_nonce@,
            signature: self.signature@,
        }
    }
}

/// Whether the fixed-width fields of the first message are well-formed.
pub open spec fn msg_format_ok(h: PeerHelloV) -> bool {
    h.claimed_public_key.len() == 32 && 16 <= h.peer_nonce.len() <= 64
}

/// Whether a candidate code string is an acceptable six-digit code.
pub open spec fn code_str_ok(s: Seq<char>) -> bool {
    is_code_format(s) && code_value_of(s) >= 100000
}

/// The four big-endian bytes of a 32-bit value.
pub open spec fn be32(v: u32) -> Seq<u8> {
    seq![
        (v / 0x1000000 % 256) as u8,
        (v / 0x10000 % 256) as u8,
        (v / 0x100 % 256) as u8,
        (v % 256) as u8,
    ]
}

/// The byte string both sides feed to the key-derivation hash: host key,
/// peer key, code, then the two length-framed nonces.
pub open spec fn kdf_input_spec(
    host_public: Seq<u8>,
    peer_public: Seq<u8>,
    code: u32,
    peer_nonce: Seq<u8>,
    host_nonce: Seq<u8>,
) -> Seq<u8> {
    host_public + peer_public + be32(code) + seq![peer_nonce.len() as u8] + peer_nonce
        + seq![host_nonce.len() as u8] + host_nonce
}

/// The shared tunnel secret of one specific exchange: the first 32 bytes of
/// the SHA-512 digest of the exchange transcript.  It commits to the code
/// and to both identities and both nonces.
pub open spec fn shared_secret_spec(
    host_public: Seq<u8>,
    peer_public: Seq<u8>,
    code: u32,
    peer_nonce: Seq<u8>,
    host_nonce: Seq<u8>,
) -> Seq<u8> {
    sha512_of(kdf_input_spec(host_public, peer_public, code, peer_nonce, host_nonce)).take(32)
}

/// The payload the host signs in its success response: its public key, its
/// nonce, and the success marker byte.
pub open spec fn payload_spec(host_public: Seq<u8>, host_nonce: Seq<u8>) -> Seq<u8> {
    host_public + host_nonce + seq![1u8]
}

/// Append the bytes of `src` to `out`.
fn append_bytes(out: &mut Vec<u8>, src: &Vec<u8>)
    ensures
        final(out)@ == old(out)@ + src@,
{
    let n = src.len();
    let mut i: usize = 0;
    while i < n
        invariant
            n == src.len(),
            0 <= i <= n,
            out@ =~= old(out)@ + src@.take(i as int),
        decreases n - i,
    {
        out.push(src[i]);
        i += 1;
    }
    proof {
        assert(out@ =~= old(out)@ + src@);
    }
}

/// Build the key-derivation input for one exchange.
fn kdf_input(
    host_public: &Vec<u8>,
    peer_public: &Vec<u8>,
    code: u32,
    peer_nonce: &Vec<u8>,
    host_nonce: &Vec<u8>,
) -> (r: Vec<u8>)
    requires
        peer_nonce@.len() <= 255,
        host_nonce@.len() <= 255,
    ensures
        r@ == kdf_input_spec(host_public@, peer_public@, code, peer_nonce@, host_nonce@),
{
    let mut out: Vec<u8> = Vec::new();
    append_bytes(&mut out, host_public);
    append_bytes(&mut out, peer_public);
    out.push((code / 0x1000000 % 256) as u8);
    out.push((code / 0x10000 % 256) as u8);
    out.push((code / 0x100 % 256) as u8);
    out.push((code % 256) as u8);
    out.push(peer_nonce.len() as u8);
    append_bytes(&mut out, peer_nonce);
    out.push(host_nonce.len() as u8);
    append_bytes(&mut out, host_nonce);
    proof {
        assert(out@ =~= kdf_input_spec(
            host_public@,
            peer_public@,
            code,
            peer_nonce@,
            host_nonce@,
        ));
    }
    out
}

/// Derive the shared tunnel secret of one exchange.
fn derive_shared_secret(
    host_public: &Vec<u8>,
    peer_public: &Vec<u8>,
    code: u32,
    peer_nonce: &Vec<u8>,
    host_nonce: &Vec<u8>,
) -> (r: Vec<u8>)
    requires
        peer_nonce@.len() <= 255,
        host_nonce@.len() <= 255,
    ensures
        r@ == shared_secret_spec(host_public@, peer_public@, code, peer_nonce@, host_nonce@),
        r@.len() == 32,
{
    let input = kdf_input(host_public, peer_public, code, peer_nonce, host_nonce);
    let digest = sha512(&input);
    let mut out: Vec<u8> = Vec::new();
    let mut i: usize = 0;
    while i < 32
        invariant
            digest@.len() == 64,
            0 <= i <= 32,
            out@ =~= digest@.take(i as int),
        decreases 32 - i,
    {
        out.push(digest[i]);
        i += 1;
    }
    proof {
        assert(out@ =~= shared_secret_spec(
            host_public@,
            peer_public@,
            code,
            peer_nonce@,
            host_nonce@,
        ));
    }
    out
}

/// Build the response payload the host signs.
fn response_payload(host_public: &Vec<u8>, host_nonce: &Vec<u8>) -> (r: Vec<u8>)
    ensures
        r@ == payload_spec(host_public@, host_nonce@),
{
    let mut out: Vec<u8> = Vec::new();
    append_bytes(&mut out, host_public);
    append_bytes(&mut out, host_nonce);
    out.push(1u8);
    proof {
        assert(out@ =~= payload_spec(host_public@, host_nonce@));
    }
    out
}

/// Errors of the pairing protocol and session lifecycle.
///
/// Every rejection carries a distinguishable kind so the shell can render
/// actionable guidance.
#[derive(Debug, Clone, Copy, PartialEq, Eq, Structural)]
pub enum PairingError {
    /// A fixed-width field of a protocol message has the wrong size.
    MalformedMessage,
    /// The candidate is not a six-digit numeric code.
    InvalidCodeFormat,
    /// The code check failed with the carried validation kind.
    RejectedCode(Validation),
    /// The attempt arrived before the backoff delay had passed.
    Throttled,
    /// A signature check failed.
    AuthenticationFailed,
    /// The peer did not answer within the bounded window.
    ProtocolTimeout,
    /// The entropy source was unavailable.
    EntropyUnavailable,
    /// The network stack refused the tunnel configuration.
    TunnelApplyFailed(ApplyFailure),
    /// The session is not in the state the operation needs.
    WrongState,
}

/// Peer-side completion of the exchange: check the host's signature over
/// its response and derive the matching shared secret independently.
///
/// Succeeds exactly when the signature verifies under the host's claimed
/// public key; the derived secret is the same value the host derived.
pub fn peer_complete_pairing(
    accept: &HostAccept,
    code: &TetherKey,
    peer_public: &Vec<u8>,
    peer_nonce: &Vec<u8>,
) -> (r: Result<Vec<u8>, PairingError>)
    requires
        peer_nonce@.len() <= 255,
    ensures
        r is Ok <==> accept@.host_public_key.len() == 32 && accept@.host_nonce.len() <= 255
            && accept@.signature.len() == 64 && ed25519_verify_of(
            accept@.host_public_key,
            payload_spec(accept@.host_public_key, accept@.host_nonce),
            accept@.signature,
        ),
        r matches Ok(k) ==> k@ == shared_secret_spec(
            accept@.host_public_key,
            peer_public@,
            code.spec_value(),
            peer_nonce@,
            accept@.host_nonce,
        ) && k@.len() == 32,
        r matches Err(e) ==> e == PairingError::AuthenticationFailed,
{
    if accept.host_public_key.len() != 32 || accept.host_nonce.len() > 255
        || accept.signature.len() != 64 {
        return Err(PairingError::AuthenticationFailed);
    }
    let payload = response_payload(&accept.host_public_key, &accept.host_nonce);
    if !verify_bytes(&accept.host_public_key, &payload, &accept.signature) {
        return Err(PairingError::AuthenticationFailed);
    }
    let secret = derive_shared_secret(
        &accept.host_public_key,
        peer_public,
        code.value(),
        peer_nonce,
        &accept.host_nonce,
    );
    Ok(secret)
}

/// States of one pairing session.  `Expired`, `Rejected` and `Failed` are
/// dead ends for that session; a new session must be started from `Idle`.
#[derive(Debug, Clone, Copy, PartialEq, Eq, Structural)]
pub enum PairingState {
    Idle,
    CodeIssued,
    AwaitingPeer,
    Negotiated,
    TunnelActive,
    Expired,
    Rejected,
    Failed,
}

/// Whether a session in this state is still in flight.
pub open spec fn session_live(st: PairingState) -> bool {
    st == PairingState::CodeIssued || st == PairingState::AwaitingPeer || st
        == PairingState::Negotiated || st == PairingState::TunnelActive
}

/// One pairing session from code issuance to tunnel teardown.
#[derive(Debug)]
pub struct PairingSession {
    id: u64,
    state: PairingState,
    peer_public: Option<Vec<u8>>,
    peer_nonce: Option<Vec<u8>>,
    host_nonce: Option<Vec<u8>>,
    shared_secret: Option<Vec<u8>>,
}

/// Ghost model of a pairing session.
pub struct SessionV {
    pub id: u64,
    pub state: PairingState,
    pub peer_public: Option<Seq<u8>>,
    pub peer_nonce: Option<Seq<u8>>,
    pub host_nonce: Option<Seq<u8>>,
    pub shared_secret: Option<Seq<u8>>,
}

impl View for PairingSession {
    type V = SessionV;

    closed spec fn view(&self) -> SessionV {
        SessionV {
            id: self.id,
            state: self.state,
            peer_public: match self.peer_public {
                Option::None => Option::None,
                Option::Some(p) => Option::Some(p@),
            },
            peer_nonce: match self.peer_nonce {
                Option::None => Option::None,
                Option::Some(p) => Option::Some(p@),
            },
            host_nonce: match self.host_nonce {
                Option::None => Option::None,
                Option::Some(p) => Option::Some(p@),
            },
            shared_secret: match self.shared_secret {
                Option::None => Option::None,
                Option::Some(p) => Option::Some(p@),
            },
        }
    }
}

/// Ghost model of the pairing state machine.
pub struct MachineV {
    pub identity: KeyPair,
    pub code: Option<PairingCode>,
    pub failed_attempts: u32,
    pub attempt_threshold: u32,
    pub retry_after: u64,
    pub session: Option<SessionV>,
    pub tunnel: WireGuardManagerV,
    pub next_session_id: u64,
}

/// Whether letting the clock advance to `now` expires the session: it is
/// still waiting on a code whose window has passed.
pub open spec fn tick_fires(m: MachineV, now: u64) -> bool {
    &&& m.session matches Some(s) && (s.state == PairingState::CodeIssued || s.state
        == PairingState::AwaitingPeer)
    &&& m.code matches Some(c) && now >= c.issued_at + c.validity
}

/// The session status the shell sees: `Idle` when no session exists.
pub open spec fn session_status_spec(m: MachineV) -> PairingState {
    match m.session {
        Option::None => PairingState::Idle,
        Option::Some(s) => s.state,
    }
}

/// When attempts are throttled until, after a mismatch at time `now` that
/// raised the failure count to `attempts`.
pub open spec fn throttle_until(now: u64, attempts: u32) -> u64 {
    if now + backoff_spec(attempts) <= u64::MAX {
        (now + backoff_spec(attempts)) as u64
    } else {
        u64::MAX
    }
}

/// The validation kind a peer message is answered with: the code check for
/// a session still waiting, the honest dead-end kind for a finished one.
pub open spec fn hello_kind(m: MachineV, candidate: u32, now: u64) -> Validation {
    match m.session {
        Option::None => Validation::NoActiveCode,
        Option::Some(s) => match s.state {
            PairingState::CodeIssued => validate_spec(m.code, candidate, now),
            PairingState::AwaitingPeer => validate_spec(m.code, candidate, now),
            PairingState::Expired => Validation::Expired,
            PairingState::Rejected => Validation::NoActiveCode,
            _ => Validation::AlreadyConsumed,
        },
    }
}

/// The validation kind the machine answers a well-formed peer message
/// with.
pub open spec fn hello_reply(m: MachineV, h: PeerHelloV, now: u64) -> Validation {
    hello_kind(m, code_value_of(h.code) as u32, now)
}

/// Whether a peer message passes the gates that precede the code check:
/// well-formed fields, a parseable code, and no active backoff delay.
pub open spec fn hello_gates(m: MachineV, h: PeerHelloV, now: u64) -> bool {
    msg_format_ok(h) && code_str_ok(h.code) && now >= m.retry_after
}

/// The tunnel configuration a negotiated session yields for the given
/// addresses and keepalive.
pub open spec fn negotiated_config(
    m: MachineV,
    local_addr: u32,
    peer_addr: u32,
    keepalive: u64,
) -> TunnelConfigV
    recommends
        m.session matches Some(s) && s.peer_public is Some && s.shared_secret is Some,
{
    TunnelConfigV {
        local_public: m.identity.spec_public_key(),
        peer_public: m.session.unwrap().peer_public.unwrap(),
        session_key: m.session.unwrap().shared_secret.unwrap(),
        local_addr,
        peer_addr,
        keepalive,
    }
}

/// What holds after a mismatched attempt at time `now`: the failure count
/// rose by one and throttling starts; below the threshold the code stays
/// active so a genuine peer may retry, at the threshold the code is
/// invalidated and the session is rejected.
pub open spec fn mismatch_post(o: MachineV, f: MachineV, now: u64) -> bool {
    &&& f.failed_attempts == o.failed_attempts + 1
    &&& f.retry_after == throttle_until(now, f.failed_attempts)
    &&& f.tunnel == o.tunnel
    &&& (f.failed_attempts < o.attempt_threshold ==> f.code == o.code && (f.session matches Some(
        s2,
    ) && s2.state == PairingState::AwaitingPeer))
    &&& (f.failed_attempts >= o.attempt_threshold ==> f.code is None && (f.session matches Some(
        s2,
    ) && s2.state == PairingState::Rejected))
}

/// What holds after a successful exchange: the code is consumed exactly
/// once, the session is negotiated and stores the secret derived from this
/// exchange, and the response is signed so that it verifies under the
/// host's public key.
pub open spec fn accept_post(o: MachineV, f: MachineV, h: PeerHelloV, a: HostAcceptV) -> bool {
    &&& o.code is Some
    &&& o.code.unwrap().value.spec_value() == code_value_of(h.code)
    &&& f.code == Some(PairingCode { consumed: true, ..o.code.unwrap() })
    &&& f.session matches Some(s2) && s2.state == PairingState::Negotiated && s2.peer_public
        == Some(h.claimed_public_key) && s2.peer_nonce == Some(h.peer_nonce) && s2.host_nonce
        == Some(a.host_nonce) && s2.shared_secret == Some(
        shared_secret_spec(
            o.identity.spec_public_key(),
            h.claimed_public_key,
            o.code.unwrap().value.spec_value(),
            h.peer_nonce,
            a.host_nonce,
        ),
    )
    &&& a.host_public_key == o.identity.spec_public_key()
    &&& a.host_nonce.len() == 32
    &&& a.signature.len() == 64
    &&& ed25519_verify_of(
        a.host_public_key,
        payload_spec(a.host_public_key, a.host_nonce),
        a.signature,
    )
    &&& f.tunnel == o.tunnel
    &&& f.retry_after == o.retry_after
    &&& f.failed_attempts == o.failed_attempts
}

/// What an apply attempt from a negotiated session yields: success exactly
/// when the stack accepts the configuration, `TunnelActive` on success, and
/// `Failed` with the stack's reason and nothing installed on refusal.
pub open spec fn apply_post(
    o: MachineV,
    f: MachineV,
    local_addr: u32,
    peer_addr: u32,
    keepalive: u64,
    r: Result<(), PairingError>,
) -> bool {
    let cfg = negotiated_config(o, local_addr, peer_addr, keepalive);
    &&& (r is Ok <==> config_ok(cfg))
    &&& (r is Ok ==> f.tunnel == apply_spec(o.tunnel, cfg) && (f.session matches Some(s2)
        && s2.state == PairingState::TunnelActive))
    &&& (r matches Err(e) ==> e == PairingError::TunnelApplyFailed(config_failure(cfg))
        && f.tunnel == o.tunnel && (f.session matches Some(s2) && s2.state
        == PairingState::Failed))
}

/// Coordinator of the pairing lifecycle.
///
/// It is the single owner of the current session, the active code and the
/// tunnel manager; every transition is serialized through its methods.
#[derive(Debug)]
pub struct PairingStateMachine {
    identity: KeyPair,
    code: Option<PairingCode>,
    failed_attempts: u32,
    attempt_threshold: u32,
    retry_after: u64,
    session: Option<PairingSession>,
    tunnel: WireGuardManager,
    next_session_id: u64,
}

impl View for PairingStateMachine {
    type V = MachineV;

    closed spec fn view(&self) -> MachineV {
        MachineV {
            identity: self.identity,
            code: self.code,
            failed_attempts: self.failed_attempts,
            attempt_threshold: self.attempt_threshold,
            retry_after: self.retry_after,
            session: match self.session {
                Option::None => Option::None,
                Option::Some(s) => Option::Some(s@),
            },
            tunnel: self.tunnel@,
            next_session_id: self.next_session_id,
        }
    }
}

impl PairingStateMachine {
    /// Consistency of the machine: the identity is well-formed, a live
    /// session always has an unconsumed code behind it, a negotiated
    /// session carries exactly the secret its exchange derived, and a
    /// tunnel is installed exactly while the session is `TunnelActive`.
    pub open spec fn wf(&self) -> bool {
        let m = self@;
        &&& m.identity.wf()
        &&& m.attempt_threshold >= 1
        &&& m.failed_attempts <= m.attempt_threshold
        &&& (m.code is Some ==> m.failed_attempts < m.attempt_threshold)
        &&& (m.session is None ==> m.code is None)
        &&& (m.code matches Some(c) ==> c.value.wf())
        &&& (m.session matches Some(s) ==> Self::session_wf(m, s))
        &&& (m.tunnel.active is Some <==> (m.session matches Some(s) && s.state
            == PairingState::TunnelActive))
        &&& (m.tunnel.active matches Some(cfg) ==> config_ok(cfg))
    }

    /// Consistency of one session against the machine around it.
    pub open spec fn session_wf(m: MachineV, s: SessionV) -> bool {
        &&& (s.state == PairingState::CodeIssued || s.state == PairingState::AwaitingPeer)
            ==> (m.code matches Some(c) && !c.consumed)
        &&& (s.state == PairingState::Negotiated || s.state == PairingState::TunnelActive)
            ==> Self::negotiated_wf(m, s)
        &&& s.state != PairingState::Idle
    }

    /// What holds of a session that completed the exchange: the code is
    /// consumed, and the stored secret is the one derived from exactly this
    /// exchange's keys, code and nonces.
    pub open spec fn negotiated_wf(m: MachineV, s: SessionV) -> bool {
        &&& m.code matches Some(c) && c.consumed
        &&& s.peer_public matches Some(p) && p.len() == 32
        &&& s.peer_nonce matches Some(pn) && 16 <= pn.len() <= 64
        &&& s.host_nonce matches Some(hn) && hn.len() == 32
        &&& s.shared_secret matches Some(k) && k.len() == 32 && k == shared_secret_spec(
            m.identity.spec_public_key(),
            s.peer_public.unwrap(),
            m.code.unwrap().value.spec_value(),
            s.peer_nonce.unwrap(),
            s.host_nonce.unwrap(),
        )
        &&& (s.state == PairingState::TunnelActive ==> (m.tunnel.active matches Some(cfg)
            && cfg.local_public == m.identity.spec_public_key() && cfg.peer_public
            == s.peer_public.unwrap() && cfg.session_key == s.shared_secret.unwrap()))
    }

    /// Create a machine around a device identity, with the given bound on
    /// mismatched attempts per code.
    pub fn new(identity: KeyPair, attempt_threshold: u32) -> (r: PairingStateMachine)
        requires
            identity.wf(),
            attempt_threshold >= 1,
        ensures
            r.wf(),
            r@.identity == identity,
            r@.code is None,
            r@.session is None,
            r@.tunnel.active is None,
            r@.tunnel.last_handshake is None,
            r@.failed_attempts == 0,
            r@.retry_after == 0,
            r@.attempt_threshold == attempt_threshold,
    {
        let tunnel = match WireGuardManager::new() {
            Ok(t) => t,
            Err(_) => vstd::pervasive::unreached(),
        };
        PairingStateMachine {
            identity,
            code: None,
            failed_attempts: 0,
            attempt_threshold,
            retry_after: 0,
            session: None,
            tunnel,
            next_session_id: 1,
        }
    }

    /// The device's public key bytes.
    pub fn public_key(&self) -> (r: &Vec<u8>)
        ensures
            r@ == self@.identity.spec_public_key(),
    {
        self.identity.public_key()
    }

    /// Start a new pairing session: cancel whatever was in flight, tear
    /// down any tunnel, issue a fresh code valid for `validity` seconds
    /// from `now`, and wait for a peer.
    ///
    /// Afterwards exactly one live session exists, and a previously active
    /// code of a different value is no longer accepted at any time.
    pub fn start_pairing(&mut self, now: u64, validity: u64) -> (code: TetherKey)
        requires
            old(self).wf(),
        ensures
            final(self).wf(),
            code.wf(),
            final(self)@.identity == old(self)@.identity,
            final(self)@.attempt_threshold == old(self)@.attempt_threshold,
            final(self)@.code == Some(
                PairingCode { value: code, issued_at: now, validity, consumed: false },
            ),
            final(self)@.session matches Some(s) && s.state == PairingState::CodeIssued
                && s.peer_public is None && s.peer_nonce is None && s.host_nonce is None
                && s.shared_secret is None,
            session_live(final(self)@.session.unwrap().state),
            final(self)@.tunnel.active is None,
            final(self)@.tunnel.last_handshake is None,
            final(self)@.failed_attempts == 0,
            final(self)@.retry_after == 0,
            forall|t: u64, cand: u32|
                old(self)@.code matches Some(oc) ==> (cand == oc.value.spec_value() && cand
                    != code.spec_value() ==> #[trigger] validate_spec(final(self)@.code, cand, t)
                    != Validation::Valid),
    {
        self.tunnel.teardown();
        let value = TetherKey::generate();
        self.code = Some(
            PairingCode { value, issued_at: now, validity, consumed: false },
        );
        self.failed_attempts = 0;
        self.retry_after = 0;
        let sid = self.next_session_id;
        if self.next_session_id < u64::MAX {
            self.next_session_id = self.next_session_id + 1;
        }
        self.session = Some(
            PairingSession {
                id: sid,
                state: PairingState::CodeIssued,
                peer_public: None,
                peer_nonce: None,
                host_nonce: None,
                shared_secret: None,
            },
        );
        value
    }

    /// Check a candidate code value at time `now`, without mutating
    /// anything.
    pub fn validate(&self, candidate: u32, now: u64) -> (r: Validation)
        ensures
            r == validate_spec(self@.code, candidate, now),
    {
        validate_code(&self.code, candidate, now)
    }

    /// The session state the shell renders; `Idle` when none exists.
    pub fn get_session_status(&self) -> (r: PairingState)
        ensures
            r == session_status_spec(self@),
    {
        match &self.session {
            Option::None => PairingState::Idle,
            Option::Some(s) => s.state,
        }
    }

    /// The tunnel status at time `now`, from a consistent snapshot.
    pub fn get_tunnel_status(&self, now: u64) -> (r: TunnelStatus)
        requires
            self.wf(),
        ensures
            r == status_spec(self@.tunnel, now),
    {
        self.tunnel.status(now)
    }

    /// Note a handshake the tunnel stack observed at time `t`.
    pub fn note_handshake(&mut self, t: u64)
        requires
            old(self).wf(),
        ensures
            final(self).wf(),
            final(self)@.identity == old(self)@.identity,
            final(self)@.code == old(self)@.code,
            final(self)@.session == old(self)@.session,
            final(self)@.failed_attempts == old(self)@.failed_attempts,
            final(self)@.attempt_threshold == old(self)@.attempt_threshold,
            final(self)@.retry_after == old(self)@.retry_after,
            final(self)@.tunnel.active == old(self)@.tunnel.active,
            final(self)@.tunnel.last_handshake == (if old(self)@.tunnel.active is Some {
                Some(t)
            } else {
                old(self)@.tunnel.last_handshake
            }),
    {
        self.tunnel.record_handshake(t);
    }

    /// Cancel the current session: tear the tunnel down, invalidate the
    /// code, and return to `Idle`.  Also the explicit-disconnect path out
    /// of `TunnelActive`.
    pub fn cancel_pairing(&mut self)
        requires
            old(self).wf(),
        ensures
            final(self).wf(),
            final(self)@.identity == old(self)@.identity,
            final(self)@.attempt_threshold == old(self)@.attempt_threshold,
            final(self)@.code is None,
            final(self)@.session is None,
            final(self)@.tunnel.active is None,
            final(self)@.tunnel.last_handshake is None,
            final(self)@.failed_attempts == 0,
            final(self)@.retry_after == 0,
    {
        self.tunnel.teardown();
        self.code = None;
        self.session = None;
        self.failed_attempts = 0;
        self.retry_after = 0;
    }

    /// Let the clock advance: a session still waiting on a code whose
    /// window has passed moves to `Expired`; nothing else changes.
    pub fn tick(&mut self, now: u64)
        requires
            old(self).wf(),
        ensures
            final(self).wf(),
            final(self)@.identity == old(self)@.identity,
            final(self)@.attempt_threshold == old(self)@.attempt_threshold,
            final(self)@.code == old(self)@.code,
            final(self)@.tunnel == old(self)@.tunnel,
            final(self)@.failed_attempts == old(self)@.failed_attempts,
            final(self)@.retry_after == old(self)@.retry_after,
            tick_fires(old(self)@, now) ==> (final(self)@.session matches Some(s2) && s2.state
                == PairingState::Expired),
            !tick_fires(old(self)@, now) ==> final(self)@.session == old(self)@.session,
    {
        let expired = match &self.code {
            Option::None => false,
            Option::Some(c) => now >= c.issued_at && now - c.issued_at >= c.validity,
        };
        match &mut self.session {
            Option::Some(s) => {
                if (s.state == PairingState::CodeIssued || s.state == PairingState::AwaitingPeer)
                    && expired {
                    s.state = PairingState::Expired;
                }
            },
            Option::None => {},
        }
    }

    /// Handle the peer's first protocol message at time `now`.
    ///
    /// The fields are checked, the candidate code is parsed and validated
    /// against the active code, and on acceptance the host derives the
    /// shared secret, marks the code consumed exactly once, moves the
    /// session to `Negotiated` and answers with its signed response.  Every
    /// rejection names its kind; a failed guess alone never consumes the
    /// code.
    pub fn handle_peer_hello(&mut self, hello: &PeerHello, now: u64) -> (r: Result<
        HostAccept,
        PairingError,
    >)
        requires
            old(self).wf(),
        ensures
            final(self).wf(),
            final(self)@.identity == old(self)@.identity,
            final(self)@.attempt_threshold == old(self)@.attempt_threshold,
            r == Err::<HostAccept, PairingError>(PairingError::MalformedMessage) <==> !msg_format_ok(hello@),
            msg_format_ok(hello@) ==> (r == Err::<HostAccept, PairingError>(
                PairingError::InvalidCodeFormat,
            ) <==> !code_str_ok(hello@.code)),
            msg_format_ok(hello@) && code_str_ok(hello@.code) ==> (r == Err::<
                HostAccept,
                PairingError,
            >(PairingError::Throttled) <==> now < old(self)@.retry_after),
            hello_gates(old(self)@, hello@, now) && hello_reply(old(self)@, hello@, now)
                != Validation::Valid ==> r == Err::<HostAccept, PairingError>(
                PairingError::RejectedCode(hello_reply(old(self)@, hello@, now)),
            ),
            hello_gates(old(self)@, hello@, now) && hello_reply(old(self)@, hello@, now)
                == Validation::Valid ==> (r is Ok || r == Err::<HostAccept, PairingError>(
                PairingError::EntropyUnavailable,
            )),
            r is Ok ==> hello_gates(old(self)@, hello@, now) && hello_reply(
                old(self)@,
                hello@,
                now,
            ) == Validation::Valid,
            (r == Err::<HostAccept, PairingError>(PairingError::MalformedMessage) || r == Err::<
                HostAccept,
                PairingError,
            >(PairingError::InvalidCodeFormat) || r == Err::<HostAccept, PairingError>(
                PairingError::Throttled,
            ) || r == Err::<HostAccept, PairingError>(PairingError::EntropyUnavailable) || r
                == Err::<HostAccept, PairingError>(
                PairingError::RejectedCode(Validation::NoActiveCode),
            ) || r == Err::<HostAccept, PairingError>(
                PairingError::RejectedCode(Validation::AlreadyConsumed),
            )) ==> final(self)@ == old(self)@,
            r == Err::<HostAccept, PairingError>(
                PairingError::RejectedCode(Validation::Expired),
            ) ==> final(self)@.code == old(self)@.code && final(self)@.tunnel == old(self)@.tunnel
                && final(self)@.failed_attempts == old(self)@.failed_attempts
                && final(self)@.retry_after == old(self)@.retry_after
                && (final(self)@.session matches Some(s2) && s2.state == PairingState::Expired),
            r == Err::<HostAccept, PairingError>(
                PairingError::RejectedCode(Validation::Mismatch),
            ) ==> mismatch_post(old(self)@, final(self)@, now),
            r matches Ok(acc) ==> accept_post(old(self)@, final(self)@, hello@, acc@),
    {
        if !(hello.claimed_public_key.len() == 32 && 16 <= hello.peer_nonce.len()
            && hello.peer_nonce.len() <= 64) {
            return Err(PairingError::MalformedMessage);
        }
        let cand = match parse_tether_key(hello.code.as_str()) {
            Ok(t) => t,
            Err(_) => { return Err(PairingError::InvalidCodeFormat) },
        };
        proof {
            assert(code_value_of(hello@.code) <= 999999);
        }
        if now < self.retry_after {
            return Err(PairingError::Throttled);
        }
        let live = match &self.session {
            Option::None => { return Err(PairingError::RejectedCode(Validation::NoActiveCode)) },
            Option::Some(s) => match s.state {
                PairingState::CodeIssued => true,
                PairingState::AwaitingPeer => true,
                PairingState::Expired => {
                    return Err(PairingError::RejectedCode(Validation::Expired))
                },
                PairingState::Rejected => {
                    return Err(PairingError::RejectedCode(Validation::NoActiveCode))
                },
                _ => { return Err(PairingError::RejectedCode(Validation::AlreadyConsumed)) },
            },
        };
        let v = validate_code(&self.code, cand.value(), now);
        match v {
            Validation::Valid => {
                let sid = match &self.session {
                    Option::Some(s) => s.id,
                    Option::None => 0,
                };
                let host_nonce = match os_random_bytes(32) {
                    Some(n) => n,
                    None => { return Err(PairingError::EntropyUnavailable) },
                };
                let host_pub = clone_bytes(self.identity.public_key());
                let shared = derive_shared_secret(
                    &host_pub,
                    &hello.claimed_public_key,
                    cand.value(),
                    &hello.peer_nonce,
                    &host_nonce,
                );
                let payload = response_payload(&host_pub, &host_nonce);
                let signature = self.identity.sign(&payload);
                match &mut self.code {
                    Option::Some(c) => { c.consumed = true },
                    Option::None => {},
                }
                self.session = Some(
                    PairingSession {
                        id: sid,
                        state: PairingState::Negotiated,
                        peer_public: Some(clone_bytes(&hello.claimed_public_key)),
                        peer_nonce: Some(clone_bytes(&hello.peer_nonce)),
                        host_nonce: Some(clone_bytes(&host_nonce)),
                        shared_secret: Some(shared),
                    },
                );
                Ok(HostAccept { host_public_key: host_pub, host_nonce, signature })
            },
            Validation::Expired => {
                match &mut self.session {
                    Option::Some(s) => { s.state = PairingState::Expired },
                    Option::None => {},
                }
                Err(PairingError::RejectedCode(Validation::Expired))
            },
            Validation::Mismatch => {
                let na = self.failed_attempts + 1;
                self.failed_attempts = na;
                let d = backoff_delay_secs(na);
                self.retry_after = if now <= u64::MAX - d {
                    now + d
                } else {
                    u64::MAX
                };
                if na >= self.attempt_threshold {
                    self.code = None;
                    match &mut self.session {
                        Option::Some(s) => { s.state = PairingState::Rejected },
                        Option::None => {},
                    }
                } else {
                    match &mut self.session {
                        Option::Some(s) => { s.state = PairingState::AwaitingPeer },
                        Option::None => {},
                    }
                }
                Err(PairingError::RejectedCode(Validation::Mismatch))
            },
            _ => Err(PairingError::RejectedCode(v)),
        }
    }

    /// Install the tunnel for a negotiated session with the given addresses
    /// and keepalive.
    ///
    /// On success the session becomes `TunnelActive`; on refusal it becomes
    /// `Failed` with nothing installed, and pairing must restart from
    /// `Idle`.
    pub fn apply_tunnel(&mut self, local_addr: u32, peer_addr: u32, keepalive: u64) -> (r: Result<
        (),
        PairingError,
    >)
        requires
            old(self).wf(),
        ensures
            final(self).wf(),
            final(self)@.identity == old(self)@.identity,
            final(self)@.attempt_threshold == old(self)@.attempt_threshold,
            final(self)@.code == old(self)@.code,
            final(self)@.failed_attempts == old(self)@.failed_attempts,
            final(self)@.retry_after == old(self)@.retry_after,
            !(old(self)@.session matches Some(s) && s.state == PairingState::Negotiated) ==> r
                == Err::<(), PairingError>(PairingError::WrongState) && final(self)@ == old(self)@,
            (old(self)@.session matches Some(s) && s.state == PairingState::Negotiated)
                ==> apply_post(old(self)@, final(self)@, local_addr, peer_addr, keepalive, r),
    {
        let is_neg = match &self.session {
            Option::Some(s) => s.state == PairingState::Negotiated,
            Option::None => false,
        };
        if !is_neg {
            return Err(PairingError::WrongState);
        }
        let (pp, sk) = match &self.session {
            Option::Some(s) => match (&s.peer_public, &s.shared_secret) {
                (Option::Some(p), Option::Some(k)) => (clone_bytes(p), clone_bytes(k)),
                _ => { return Err(PairingError::WrongState) },
            },
            Option::None => { return Err(PairingError::WrongState) },
        };
        let cfg = TunnelConfig {
            local_public: clone_bytes(self.identity.public_key()),
            peer_public: pp,
            session_key: sk,
            local_addr,
            peer_addr,
            keepalive,
        };
        match self.tunnel.apply(&cfg) {
            Ok(()) => {
                match &mut self.session {
                    Option::Some(s) => { s.state = PairingState::TunnelActive },
                    Option::None => {},
                }
                Ok(())
            },
            Err(f) => {
                match &mut self.session {
                    Option::Some(s) => { s.state = PairingState::Failed },
                    Option::None => {},
                }
                Err(PairingError::TunnelApplyFailed(f))
            },
        }
    }

    /// Abandon a session whose peer never completed the exchange within the
    /// bounded window; reports the timeout kind when it applied.
    pub fn note_timeout(&mut self) -> (r: Option<PairingError>)
        requires
            old(self).wf(),
        ensures
            final(self).wf(),
            final(self)@.identity == old(self)@.identity,
            final(self)@.attempt_threshold == old(self)@.attempt_threshold,
            final(self)@.code == old(self)@.code,
            final(self)@.tunnel == old(self)@.tunnel,
            (old(self)@.session matches Some(s) && s.state == PairingState::AwaitingPeer) ==> (
            r == Some(PairingError::ProtocolTimeout) && (final(self)@.session matches Some(s2)
                && s2.state == PairingState::Expired)),
            !(old(self)@.session matches Some(s) && s.state == PairingState::AwaitingPeer)
                ==> r is None && final(self)@ == old(self)@,
    {
        match &mut self.session {
            Option::Some(s) => {
                if s.state == PairingState::AwaitingPeer {
                    s.state = PairingState::Expired;
                    Some(PairingError::ProtocolTimeout)
                } else {
                    None
                }
            },
            Option::None => None,
        }
    }
}

} // verus!

