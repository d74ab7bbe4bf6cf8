//! Mining configuration and its validator.

use vstd::prelude::*;
use crate::text::{is_blank, spec_blank};
use crate::probe::SystemInfo;

verus! {

/// A caller-supplied mining configuration, immutable once accepted.
#[derive(Debug)]
pub struct MiningConfig {
    pub pool_url: String,
    pub wallet_address: String,
    pub worker_name: String,
    pub threads: u32,
    pub coin_type: String,
    pub algorithm: String,
}

/// Why a configuration was rejected before any process was touched.
#[derive(Clone, Copy, Debug, PartialEq, Eq, Structural)]
pub enum ConfigError {
    /// Pool address, wallet address or algorithm is empty or whitespace-only.
    EmptyField,
    /// A thread count of zero was requested.
    ThreadCountZero,
    /// More threads were requested than the host has logical CPUs.
    ThreadCountExceedsCapacity,
}

/// The description each rejection carries to the caller.
pub open spec fn spec_config_error_message(e: ConfigError) -> Seq<char> {
    match e {
        ConfigError::EmptyField => "Pool address, wallet address and algorithm must not be empty"@,
        ConfigError::ThreadCountZero => "Thread count must be at least 1"@,
        ConfigError::ThreadCountExceedsCapacity => "Thread count exceeds the host's logical CPUs"@,
    }
}

impl ConfigError {
    /// A human-readable description of the rejection.
    pub fn message(&self) -> (r: String)
        ensures
            r@ == spec_config_error_message(*self),
    {
        match self {
            ConfigError::EmptyField => "Pool address, wallet address and algorithm must not be empty".to_owned(),
            ConfigError::ThreadCountZero => "Thread count must be at least 1".to_owned(),
            ConfigError::ThreadCountExceedsCapacity => "Thread count exceeds the host's logical CPUs".to_owned(),
        }
    }
}

impl Clone for MiningConfig {
    fn clone(&self) -> (r: Self)
        ensures
            cfg_eq(r, *self),
    {
        MiningConfig {
            pool_url: self.pool_url.clone(),
            wallet_address: self.wallet_address.clone(),
            worker_name: self.worker_name.clone(),
            threads: self.threads,
            coin_type: self.coin_type.clone(),
            algorithm: self.algorithm.clone(),
        }
    }
}

/// Field-by-field agreement of two configurations.
pub open spec fn cfg_eq(a: MiningConfig, b: MiningConfig) -> bool {
    &&& a.pool_url@ == b.pool_url@
    &&& a.wallet_address@ == b.wallet_address@
    &&& a.worker_name@ == b.worker_name@
    &&& a.threads == b.threads
    &&& a.coin_type@ == b.coin_type@
    &&& a.algorithm@ == b.algorithm@
}

/// What the validator decides: a configuration is accepted exactly when no
/// required field is blank and the thread count is positive and within
/// capacity; the first failing rule, in the order written, names the error.
pub open spec fn spec_validate(c: MiningConfig, sys: SystemInfo) -> Result<(), ConfigError> {
    if spec_blank(c.pool_url@) || spec_blank(c.wallet_address@) || spec_blank(c.algorithm@) {
        Result::Err(ConfigError::EmptyField)
    } else if c.threads == 0 {
        Result::Err(ConfigError::ThreadCountZero)
    } else if c.threads > sys.cpu_threads {
        Result::Err(ConfigError::ThreadCountExceedsCapacity)
    } else {
        Result::Ok(())
    }
}

/// A configuration that passed validation against a probed capacity.
#[derive(Debug)]
pub struct ValidatedConfig {
    config: MiningConfig,
    capacity: u32,
}

impl ValidatedConfig {
    pub closed spec fn spec_config(self) -> MiningConfig {
        self.config
    }

    pub closed spec fn spec_capacity(self) -> u32 {
        self.capacity
    }

    /// What validation guarantees of the accepted configuration.
    pub open spec fn wf(self) -> bool {
        &&& !spec_blank(self.spec_config().pool_url@)
        &&& !spec_blank(self.spec_config().wallet_address@)
        &&& !spec_blank(self.spec_config().algorithm@)
        &&& 0 < self.spec_config().threads <= self.spec_capacity()
    }

    /// The accepted configuration.
    pub fn config(&self) -> (r: &MiningConfig)
        ensures
            *r == self.spec_config(),
    {
        &self.config
    }
}

/// Validates a configuration against the probed host capabilities.
/// Pure: touches no process and no host state.
pub fn validate(config: &MiningConfig, sys: &SystemInfo) -> (r: Result<ValidatedConfig, ConfigError>)
    ensures
        (match r {
            Result::Ok(v) => {
                &&& spec_validate(*config, *sys) is Ok
                &&& v.wf()
                &&& cfg_eq(v.spec_config(), *config)
                &&& v.spec_capacity() == sys.cpu_threads
            },
            Result::Err(e) => spec_validate(*config, *sys) == Result::<(), ConfigError>::Err(e),
        }),
{
    if is_blank(config.pool_url.as_str())
        || is_blank(config.wallet_address.as_str())
        || is_blank(config.algorithm.as_str()) {
        Err(ConfigError::EmptyField)
    } else if config.threads == 0 {
        Err(ConfigError::ThreadCountZero)
    } else if config.threads > sys.cpu_threads {
        Err(ConfigError::ThreadCountExceedsCapacity)
    } else {
        Ok(ValidatedConfig { config: config.clone(), capacity: sys.cpu_threads })
    }
}

/// Thread counts of zero, and thread counts beyond the probed logical CPU
/// count, are rejected for every probed capacity.
pub proof fn lemma_validator_rejects_bad_thread_counts(c: MiningConfig, sys: SystemInfo)
    requires
        c.threads == 0 || c.threads > sys.cpu_threads,
    ensures
        spec_validate(c, sys) is Err,
{
}

} // verus!
