//! Device-identity and tunnel-pairing core.
//!
//! One device (the host) holds a long-lived signing keypair and issues a
//! short-lived six-digit pairing code; a peer that relays the code out of
//! band completes a signed two-message exchange, after which both sides hold
//! a shared tunnel secret and the host installs a point-to-point tunnel.

pub mod config;
pub mod crypto;
pub mod error;
pub mod network;
pub mod pairing;
pub mod session;

pub use config::ConfigManager;
pub use crypto::{KeyPair, TetherKey};
pub use error::CoreError;
pub use network::WireGuardManager;
