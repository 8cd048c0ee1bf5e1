//! Error types of the core library.

use vstd::prelude::*;

verus! {

/// Top-level error of the core library.
///
/// Cryptographic failures are fatal to the operation that hit them;
/// `InvalidTetherKey` reports a candidate pairing code that is not a
/// six-digit number in the accepted range.
#[derive(Debug, Clone, PartialEq, Eq)]
pub enum CoreError {
    Crypto(String),
    InvalidTetherKey,
    Config(String),
    Network(String),
}

} // verus!
