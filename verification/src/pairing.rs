//! Pairing-code lifecycle: issue, validate, consume.
//!
//! At most one pairing code is active per host at a time.  A code is
//! single-use and time-bounded: validation succeeds only while the code is
//! unconsumed and the clock is inside its validity window, and marking it
//! consumed is a separate explicit step taken once the full protocol
//! exchange succeeds.

use vstd::prelude::*;
use crate::crypto::TetherKey;

verus! {

/// One issued pairing code with its lifecycle state.
#[derive(Debug, Clone, Copy, PartialEq, Eq, Structural)]
pub struct PairingCode {
    /// The six-digit secret value.
    pub value: TetherKey,
    /// Clock reading when the code was issued, in seconds.
    pub issued_at: u64,
    /// Length of the validity window, in seconds.
    pub validity: u64,
    /// Whether a successful exchange has used this code up.
    pub consumed: bool,
}

/// Outcome of checking a candidate code at a point in time.
#[derive(Debug, Clone, Copy, PartialEq, Eq, Structural)]
pub enum Validation {
    Valid,
    NoActiveCode,
    Expired,
    AlreadyConsumed,
    Mismatch,
}

/// Whether `t` lies inside the code's validity window
/// `[issued_at, issued_at + validity)`.
pub open spec fn in_window(c: PairingCode, t: u64) -> bool {
    c.issued_at <= t < c.issued_at + c.validity
}

/// What validation of `candidate` at time `t` yields against the active
/// code, if any: the candidate is accepted only if a code is active,
/// unconsumed, inside its window, and matches exactly.
pub open spec fn validate_spec(active: Option<PairingCode>, candidate: u32, t: u64) -> Validation {
    match active {
        Option::None => Validation::NoActiveCode,
        Option::Some(c) => if !in_window(c, t) {
            Validation::Expired
        } else if c.consumed {
            Validation::AlreadyConsumed
        } else if candidate != c.value.spec_value() {
            Validation::Mismatch
        } else {
            Validation::Valid
        },
    }
}

/// Validation accepts a candidate if and only if a code is active,
/// unconsumed, the time is inside the validity window, and the value
/// matches; on every other combination it yields a definite non-valid kind.
pub proof fn lemma_validate_valid_iff(active: Option<PairingCode>, candidate: u32, t: u64)
    ensures
        validate_spec(active, candidate, t) == Validation::Valid <==> (active matches Some(c)
            && !c.consumed && in_window(c, t) && candidate == c.value.spec_value()),
{
}

/// A consumed code is never accepted again, and neither is any code
/// checked outside its validity window: single use, time bounded.
pub proof fn lemma_code_single_use(c: PairingCode, candidate: u32, t: u64)
    ensures
        c.consumed ==> validate_spec(Some(c), candidate, t) != Validation::Valid,
        !in_window(c, t) ==> validate_spec(Some(c), candidate, t) != Validation::Valid,
{
}

/// Check a candidate value against the active code at time `t`.
///
/// Validation never mutates: a failed guess does not consume the code.
pub fn validate_code(active: &Option<PairingCode>, candidate: u32, t: u64) -> (r: Validation)
    ensures
        r == validate_spec(*active, candidate, t),
{
    match active {
        Option::None => Validation::NoActiveCode,
        Option::Some(c) => {
            let in_win = c.issued_at <= t && t - c.issued_at < c.validity;
            if !in_win {
                Validation::Expired
            } else if c.consumed {
                Validation::AlreadyConsumed
            } else if candidate != c.value.value() {
                Validation::Mismatch
            } else {
                Validation::Valid
            }
        },
    }
}

} // verus!
