//! The telemetry snapshot published by the collector and read by callers.

use vstd::prelude::*;

verus! {

/// Aggregate performance figures for the worker process.
///
/// Hashrates are whole hashes per second (the status endpoint's fractional
/// readings are taken rounded down); share counters only grow while the
/// worker runs, and every field is zero whenever the supervisor is stopped.
#[derive(Clone, Copy, Debug, PartialEq, Eq, Structural)]
pub struct MiningStats {
    pub hashrate: u64,
    pub hashrate_10s: u64,
    pub hashrate_60s: u64,
    pub hashrate_15m: u64,
    pub shares_accepted: u64,
    pub shares_rejected: u64,
    pub difficulty: u64,
    pub uptime: u64,
}

impl MiningStats {
    /// The all-zero snapshot reported whenever the miner is stopped.
    pub open spec fn spec_default() -> MiningStats {
        MiningStats {
            hashrate: 0,
            hashrate_10s: 0,
            hashrate_60s: 0,
            hashrate_15m: 0,
            shares_accepted: 0,
            shares_rejected: 0,
            difficulty: 0,
            uptime: 0,
        }
    }
}

impl Default for MiningStats {
    fn default() -> (r: Self)
        ensures
            r == MiningStats::spec_default(),
    {
        MiningStats {
            hashrate: 0,
            hashrate_10s: 0,
            hashrate_60s: 0,
            hashrate_15m: 0,
            shares_accepted: 0,
            shares_rejected: 0,
            difficulty: 0,
            uptime: 0,
        }
    }
}

} // verus!
