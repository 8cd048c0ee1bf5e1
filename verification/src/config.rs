//! Configuration management.
//!
//! Persistent storage of settings is an external collaborator concern; the
//! manager here is the core-side handle that the shell hands loaded values
//! through.

use vstd::prelude::*;
use crate::error::CoreError;

verus! {

/// Core-side handle for application settings.
pub struct ConfigManager {
}

impl ConfigManager {
    /// Create a new configuration manager.
    pub fn new() -> (r: Result<ConfigManager, CoreError>)
        ensures
            r is Ok,
    {
        Ok(ConfigManager {})
    }
}

} // verus!
