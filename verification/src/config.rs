use vstd::prelude::*;

verus! {

/// What the ambient environment's configuration discovery resolved:
/// whether any credentials were found, and which region, if any.
/// The unverified binary fills this in from the hosting environment's
/// conventional discovery chain before any client is built.
#[derive(Debug, Clone)]
pub struct EnvConfig {
    pub has_credentials: bool,
    pub region: Option<String>,
}

/// Why a storage client could not be constructed. Fatal: the process
/// exits before any transfer is attempted.
#[derive(Clone, Copy, Debug, PartialEq, Eq, Structural)]
pub enum ConfigError {
    /// No usable credentials could be resolved from the environment.
    MissingCredentials,
    /// No region could be resolved from the environment.
    MissingRegion,
}

impl ConfigError {
    /// A fixed human-readable line naming what could not be resolved.
    pub fn context_line(&self) -> (r: &'static str)
        ensures
            *self == ConfigError::MissingCredentials
                ==> r@ == "no usable credentials could be resolved"@,
            *self == ConfigError::MissingRegion ==> r@ == "no region could be resolved"@,
    {
        match self {
            ConfigError::MissingCredentials => "no usable credentials could be resolved",
            ConfigError::MissingRegion => "no region could be resolved",
        }
    }
}

/// Decides whether a ready-to-use client can be built from what the
/// environment provided. This is a pure decision: it performs no network
/// call, so a configuration failure is reported before any network
/// activity is attempted.
pub fn validate_client_config(cfg: &EnvConfig) -> (r: Result<(), ConfigError>)
    ensures
        r is Ok <==> (cfg.has_credentials && cfg.region is Some),
        r == Result::<(), ConfigError>::Err(ConfigError::MissingCredentials)
            <==> !cfg.has_credentials,
        r == Result::<(), ConfigError>::Err(ConfigError::MissingRegion)
            <==> (cfg.has_credentials && cfg.region is None),
{
    if !cfg.has_credentials {
        Err(ConfigError::MissingCredentials)
    } else if cfg.region.is_none() {
        Err(ConfigError::MissingRegion)
    } else {
        Ok(())
    }
}

} // verus!
