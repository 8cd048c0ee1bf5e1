//! Tunnel lifecycle management.
//!
//! The manager owns the active tunnel configuration and models the
//! apply / status / teardown discipline of the underlying point-to-point
//! tunnel: apply is all-or-nothing and idempotent, teardown always succeeds
//! and leaves nothing allocated, and status is derived from the last
//! observed handshake against a keepalive-derived threshold.

use vstd::prelude::*;
use crate::error::CoreError;

verus! {

/// Negotiated configuration of one tunnel.
#[derive(Debug, Clone)]
pub struct TunnelConfig {
    /// This device's public key.
    pub local_public: Vec<u8>,
    /// The paired peer's public key.
    pub peer_public: Vec<u8>,
    /// Session key material derived by the pairing exchange.
    pub session_key: Vec<u8>,
    /// Virtual address assigned to this device.
    pub local_addr: u32,
    /// Virtual address assigned to the peer.
    pub peer_addr: u32,
    /// Keepalive interval in seconds.
    pub keepalive: u64,
}

/// Ghost model of a tunnel configuration.
pub struct TunnelConfigV {
    pub local_public: Seq<u8>,
    pub peer_public: Seq<u8>,
    pub session_key: Seq<u8>,
    pub local_addr: u32,
    pub peer_addr: u32,
    pub keepalive: u64,
}

impl View for TunnelConfig {
    type V = TunnelConfigV;

    open spec fn view(&self) -> TunnelConfigV {
        TunnelConfigV {
            local_public: self.local_public@,
            peer_public: self.peer_public@,
            session_key: self.session_key@,
            local_addr: self.local_addr,
            peer_addr: self.peer_addr,
            keepalive: self.keepalive,
        }
    }
}

/// Why an apply was refused.
///
/// The first three are configuration errors and are never retried;
/// `ResourceBusy` stands for a transient refusal of the underlying network
/// stack and is the one kind the retry policy accepts.
#[derive(Debug, Clone, Copy, PartialEq, Eq, Structural)]
pub enum ApplyFailure {
    AddressConflict,
    InvalidKey,
    BadKeepalive,
    ResourceBusy,
}

/// Tunnel status as reported to the shell.
#[derive(Debug, Clone, Copy, PartialEq, Eq, Structural)]
pub enum TunnelStatus {
    Down,
    Establishing,
    Up(u64),
    Degraded(DegradeReason),
}

/// Why a configured tunnel is reported degraded.
#[derive(Debug, Clone, Copy, PartialEq, Eq, Structural)]
pub enum DegradeReason {
    HandshakeTimeout,
}

/// A configuration the network stack accepts: 32-byte keys, distinct
/// non-zero virtual addresses, and a keepalive between 1 second and 1 hour.
pub open spec fn config_ok(c: TunnelConfigV) -> bool {
    &&& c.local_public.len() == 32
    &&& c.peer_public.len() == 32
    &&& c.session_key.len() == 32
    &&& c.local_addr != 0
    &&& c.peer_addr != 0
    &&& c.local_addr != c.peer_addr
    &&& 1 <= c.keepalive <= 3600
}

/// The failure a bad configuration is refused with: key material is checked
/// first, then addresses, then the keepalive.
pub open spec fn config_failure(c: TunnelConfigV) -> ApplyFailure
    recommends
        !config_ok(c),
{
    if !(c.local_public.len() == 32 && c.peer_public.len() == 32 && c.session_key.len() == 32) {
        ApplyFailure::InvalidKey
    } else if !(c.local_addr != 0 && c.peer_addr != 0 && c.local_addr != c.peer_addr) {
        ApplyFailure::AddressConflict
    } else {
        ApplyFailure::BadKeepalive
    }
}

/// Ghost model of the tunnel manager.
pub struct WireGuardManagerV {
    pub active: Option<TunnelConfigV>,
    pub last_handshake: Option<u64>,
}

/// State after an apply: a refused configuration changes nothing, applying
/// the configuration that is already active changes nothing, and otherwise
/// the new configuration replaces whatever was installed, with no handshake
/// observed yet.
pub open spec fn apply_spec(m: WireGuardManagerV, c: TunnelConfigV) -> WireGuardManagerV {
    if !config_ok(c) {
        m
    } else if m.active == Some(c) {
        m
    } else {
        WireGuardManagerV { active: Some(c), last_handshake: None }
    }
}

/// Status at time `now`: `Down` without a configuration, `Establishing`
/// before the first handshake, `Up` while the last handshake is within
/// three keepalive intervals, `Degraded` after that.
pub open spec fn status_spec(m: WireGuardManagerV, now: u64) -> TunnelStatus {
    match m.active {
        Option::None => TunnelStatus::Down,
        Option::Some(c) => match m.last_handshake {
            Option::None => TunnelStatus::Establishing,
            Option::Some(t) => if now <= t || now - t <= 3 * c.keepalive {
                TunnelStatus::Up(t)
            } else {
                TunnelStatus::Degraded(DegradeReason::HandshakeTimeout)
            },
        },
    }
}

/// Applying the same configuration twice in a row leaves the manager in
/// exactly the state one apply leaves it in, so the reported status is the
/// same as well.
pub proof fn lemma_apply_idempotent(m: WireGuardManagerV, c: TunnelConfigV, now: u64)
    ensures
        apply_spec(apply_spec(m, c), c) == apply_spec(m, c),
        status_spec(apply_spec(apply_spec(m, c), c), now) == status_spec(apply_spec(m, c), now),
{
}

/// Manager of the encrypted point-to-point tunnel.
///
/// It exclusively owns the active configuration; a configuration is only
/// ever installed through `apply` and removed through `teardown` or a
/// replacing `apply`.
#[derive(Debug)]
pub struct WireGuardManager {
    active: Option<TunnelConfig>,
    last_handshake: Option<u64>,
}

impl View for WireGuardManager {
    type V = WireGuardManagerV;

    closed spec fn view(&self) -> WireGuardManagerV {
        WireGuardManagerV {
            active: match self.active {
                Option::None => Option::None,
                Option::Some(c) => Option::Some(c@),
            },
            last_handshake: self.last_handshake,
        }
    }
}

impl WireGuardManager {
    /// The installed configuration only ever came through `apply`, so it is
    /// one the stack accepted.
    pub open spec fn wf(&self) -> bool {
        self@.active matches Some(c) ==> config_ok(c)
    }

    /// Create a new tunnel manager with no tunnel installed.
    pub fn new() -> (r: Result<WireGuardManager, CoreError>)
        ensures
            r matches Ok(m) ==> m@.active is None && m@.last_handshake is None && m.wf(),
            r is Ok,
    {
        Ok(WireGuardManager { active: None, last_handshake: None })
    }

    /// Install the tunnel for a negotiated configuration.
    ///
    /// All-or-nothing: a refused configuration leaves the previous state
    /// untouched.  Idempotent: applying the active configuration again is a
    /// no-op.  Applying a different configuration replaces the old one.
    pub fn apply(&mut self, config: &TunnelConfig) -> (r: Result<(), ApplyFailure>)
        requires
            old(self).wf(),
        ensures
            final(self)@ == apply_spec(old(self)@, config@),
            final(self).wf(),
            r is Ok <==> config_ok(config@),
            r matches Err(f) ==> f == config_failure(config@),
    {
        if !(self.check_config(config)) {
            let f = if !(config.local_public.len() == 32 && config.peer_public.len() == 32
                && config.session_key.len() == 32) {
                ApplyFailure::InvalidKey
            } else if !(config.local_addr != 0 && config.peer_addr != 0
                && config.local_addr != config.peer_addr) {
                ApplyFailure::AddressConflict
            } else {
                ApplyFailure::BadKeepalive
            };
            return Err(f);
        }
        let same = match &self.active {
            Option::None => false,
            Option::Some(c) => config_eq(c, config),
        };
        if !same {
            self.active = Some(config.clone_config());
            self.last_handshake = None;
        }
        proof {
            if same {
                assert(old(self)@.active == Some(config@));
                assert(self@ == apply_spec(old(self)@, config@));
            }
        }
        Ok(())
    }

    /// Whether the stack accepts this configuration.
    fn check_config(&self, c: &TunnelConfig) -> (r: bool)
        ensures
            r == config_ok(c@),
    {
        c.local_public.len() == 32 && c.peer_public.len() == 32 && c.session_key.len() == 32
            && c.local_addr != 0 && c.peer_addr != 0 && c.local_addr != c.peer_addr
            && 1 <= c.keepalive && c.keepalive <= 3600
    }

    /// Report the tunnel status at time `now`, from a consistent snapshot.
    pub fn status(&self, now: u64) -> (r: TunnelStatus)
        requires
            self.wf(),
        ensures
            r == status_spec(self@, now),
    {
        match &self.active {
            Option::None => TunnelStatus::Down,
            Option::Some(c) => match self.last_handshake {
                Option::None => TunnelStatus::Establishing,
                Option::Some(t) => if now <= t || now - t <= 3 * c.keepalive {
                    TunnelStatus::Up(t)
                } else {
                    TunnelStatus::Degraded(DegradeReason::HandshakeTimeout)
                },
            },
        }
    }

    /// Note a handshake observed on the active tunnel at time `t`.
    pub fn record_handshake(&mut self, t: u64)
        requires
            old(self).wf(),
        ensures
            final(self).wf(),
            final(self)@.active == old(self)@.active,
            final(self)@.last_handshake == (if old(self)@.active is Some {
                Some(t)
            } else {
                old(self)@.last_handshake
            }),
    {
        if self.active.is_some() {
            self.last_handshake = Some(t);
        }
    }

    /// Remove the tunnel configuration and release the underlying handle.
    ///
    /// Always succeeds, also when nothing (or only part of a tunnel) is
    /// installed; afterwards nothing remains allocated.
    pub fn teardown(&mut self)
        ensures
            final(self)@.active is None,
            final(self)@.last_handshake is None,
            final(self).wf(),
    {
        self.active = None;
        self.last_handshake = None;
    }
}

/// Whether a transient failure should be retried: only `ResourceBusy` is
/// transient, and only while the attempt count is below the bound.
pub fn should_retry(failure: ApplyFailure, attempt: u32, max_attempts: u32) -> (r: bool)
    ensures
        r <==> failure == ApplyFailure::ResourceBusy && attempt < max_attempts,
{
    match failure {
        ApplyFailure::ResourceBusy => attempt < max_attempts,
        _ => false,
    }
}

/// Backoff delay in seconds before retry number `attempt`: doubles from one
/// second and is capped at 64 seconds.
pub open spec fn backoff_spec(attempt: u32) -> u64 {
    if attempt == 0 {
        1
    } else if attempt == 1 {
        2
    } else if attempt == 2 {
        4
    } else if attempt == 3 {
        8
    } else if attempt == 4 {
        16
    } else if attempt == 5 {
        32
    } else {
        64
    }
}

/// Exponential backoff delay in seconds before retry number `attempt`.
pub fn backoff_delay_secs(attempt: u32) -> (r: u64)
    ensures
        r == backoff_spec(attempt),
{
    match attempt {
        0 => 1,
        1 => 2,
        2 => 4,
        3 => 8,
        4 => 16,
        5 => 32,
        _ => 64,
    }
}

/// Byte-for-byte equality of two vectors.
fn vec_u8_eq(a: &Vec<u8>, b: &Vec<u8>) -> (r: bool)
    ensures
        r <==> a@ == b@,
{
    if a.len() != b.len() {
        return false;
    }
    let n = a.len();
    let mut i: usize = 0;
    while i < n
        invariant
            n == a.len() == b.len(),
            0 <= i <= n,
            forall|j: int| 0 <= j < i ==> a@[j] == b@[j],
        decreases n - i,
    {
        if a[i] != b[i] {
            return false;
        }
        i += 1;
    }
    proof {
        assert(a@ =~= b@);
    }
    true
}

/// Field-for-field equality of two configurations.
fn config_eq(a: &TunnelConfig, b: &TunnelConfig) -> (r: bool)
    ensures
        r <==> a@ == b@,
{
    let r = vec_u8_eq(&a.local_public, &b.local_public) && vec_u8_eq(&a.peer_public, &b.peer_public)
        && vec_u8_eq(&a.session_key, &b.session_key) && a.local_addr == b.local_addr
        && a.peer_addr == b.peer_addr && a.keepalive == b.keepalive;
    proof {
        if r {
            assert(a@ == b@);
        } else {
            assert(a@ != b@);
        }
    }
    r
}

impl TunnelConfig {
    /// A deep copy of the configuration.
    fn clone_config(&self) -> (r: TunnelConfig)
        ensures
            r@ == self@,
    {
        TunnelConfig {
            local_public: clone_bytes(&self.local_public),
            peer_public: clone_bytes(&self.peer_public),
            session_key: clone_bytes(&self.session_key),
            local_addr: self.local_addr,
            peer_addr: self.peer_addr,
            keepalive: self.keepalive,
        }
    }
}

/// A copy of a byte vector.
pub(crate) fn clone_bytes(a: &Vec<u8>) -> (r: Vec<u8>)
    ensures
        r@ == a@,
{
    let mut out: Vec<u8> = Vec::new();
    let n = a.len();
    let mut i: usize = 0;
    while i < n
        invariant
            n == a.len(),
            0 <= i <= n,
            out@ =~= a@.take(i as int),
        decreases n - i,
    {
        out.push(a[i]);
        i += 1;
    }
    proof {
        assert(out@ =~= a@);
    }
    out
}

} // verus!
