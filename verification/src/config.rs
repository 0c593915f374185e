//! Key-generation configuration defaults.

use vstd::prelude::*;

use crate::errors::ProtectionError;

verus! {

/// Settings the key generator runs with. Only the defaults are used: no
/// configuration file is read or written yet.
pub struct Config {
    pub default_key_type: String,
    pub default_curve: String,
    pub encryption_iterations: u32,
    pub key_expiry_days: u32,
    pub abu_contact: String,
}

/// What every field of the default configuration holds.
pub open spec fn is_default_config(c: Config) -> bool {
    &&& c.default_key_type@ == "ECC"@
    &&& c.default_curve@ == "P-256"@
    &&& c.encryption_iterations == 100000u32
    &&& c.key_expiry_days == 1825u32
    &&& c.abu_contact@ == "contact@abu.mc"@
}

impl Default for Config {
    /// An elliptic-curve P-256 key, 100,000 key-derivation iterations and a
    /// five-year expiry.
    fn default() -> (c: Self)
        ensures
            is_default_config(c),
    {
        Config {
            default_key_type: "ECC".to_owned(),
            default_curve: "P-256".to_owned(),
            encryption_iterations: 100000,
            key_expiry_days: 365 * 5,
            abu_contact: "contact@abu.mc".to_owned(),
        }
    }
}

impl Config {
    /// Load the configuration: the defaults, until loading from a file
    /// exists.
    pub fn load() -> (c: Self)
        ensures
            is_default_config(c),
    {
        Self::default()
    }

    /// Save the configuration. Persistence does not exist yet, so there is
    /// nothing to write and the call always succeeds.
    pub fn save(&self) -> (r: Result<(), ProtectionError>)
        ensures
            r is Ok,
    {
        Ok(())
    }
}

} // verus!
