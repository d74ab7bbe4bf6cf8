//! The telemetry collector: parses the worker's status payload into a
//! stats snapshot, publishes it atomically while the worker runs, and
//! backs off exponentially on consecutive poll failures.
//!
//! The status endpoint's payload is an external, versioned contract: it is
//! read here as a flat listing that names each figure as a double-quoted
//! key followed by a colon and an unsigned decimal, such as
//! `"hashrate": 1234`. A payload missing any figure is malformed, and a
//! malformed poll never disturbs the published snapshot.

use vstd::prelude::*;
use crate::stats::MiningStats;
use crate::supervisor::MinerState;
use crate::text::{
    digits_end, digits_end_fwd, find_sub_from, find_substring, parse_u64_digits, parse_u64_from,
    skip_spaces, skip_spaces_fwd,
};

verus! {

/// The figure a status payload reports under `key`: the decimal run after
/// the key's first occurrence, with whitespace between them allowed;
/// `None` when the key is absent, no digits follow, or the figure does
/// not fit in a `u64`.
pub open spec fn stat_field_value(s: Seq<char>, key: Seq<char>) -> Option<u64> {
    match find_sub_from(s, key, 0) {
        Option::None => Option::None,
        Option::Some(i) => {
            let j = skip_spaces(s, i + key.len(), s.len() as int);
            let k = digits_end(s, j);
            if k == j {
                Option::None
            } else {
                parse_u64_from(s, j, k, Option::Some(0u64))
            }
        },
    }
}

fn parse_stat_field(t: &str, key: &str) -> (r: Option<u64>)
    requires
        key@.len() >= 1,
    ensures
        r == stat_field_value(t@, key@),
{
    match find_substring(t, key) {
        None => None,
        Some(i) => {
            let n: usize = t.unicode_len();
            let klen: usize = key.unicode_len();
            let j = skip_spaces_fwd(t, i + klen, n);
            let k = digits_end_fwd(t, j);
            if k == j {
                None
            } else {
                parse_u64_digits(t, j, k)
            }
        },
    }
}

/// The snapshot a status payload describes, when every figure is present.
pub open spec fn spec_parse_stats(s: Seq<char>) -> Option<MiningStats> {
    let hashrate = stat_field_value(s, "\"hashrate\":"@);
    let hashrate_10s = stat_field_value(s, "\"hashrate_10s\":"@);
    let hashrate_60s = stat_field_value(s, "\"hashrate_60s\":"@);
    let hashrate_15m = stat_field_value(s, "\"hashrate_15m\":"@);
    let shares_accepted = stat_field_value(s, "\"shares_accepted\":"@);
    let shares_rejected = stat_field_value(s, "\"shares_rejected\":"@);
    let difficulty = stat_field_value(s, "\"difficulty\":"@);
    let uptime = stat_field_value(s, "\"uptime\":"@);
    if hashrate is Some && hashrate_10s is Some && hashrate_60s is Some && hashrate_15m is Some
        && shares_accepted is Some && shares_rejected is Some && difficulty is Some
        && uptime is Some {
        Option::Some(
            MiningStats {
                hashrate: hashrate->0,
                hashrate_10s: hashrate_10s->0,
                hashrate_60s: hashrate_60s->0,
                hashrate_15m: hashrate_15m->0,
                shares_accepted: shares_accepted->0,
                shares_rejected: shares_rejected->0,
                difficulty: difficulty->0,
                uptime: uptime->0,
            },
        )
    } else {
        Option::None
    }
}

/// Parses a status payload into a snapshot; `None` marks a malformed
/// payload, which the collector treats as a failed poll.
pub fn parse_stats(payload: &str) -> (r: Option<MiningStats>)
    ensures
        r == spec_parse_stats(payload@),
{
    proof {
        reveal_strlit("\"hashrate\":");
        reveal_strlit("\"hashrate_10s\":");
        reveal_strlit("\"hashrate_60s\":");
        reveal_strlit("\"hashrate_15m\":");
        reveal_strlit("\"shares_accepted\":");
        reveal_strlit("\"shares_rejected\":");
        reveal_strlit("\"difficulty\":");
        reveal_strlit("\"uptime\":");
    }
    let hashrate = parse_stat_field(payload, "\"hashrate\":");
    let hashrate_10s = parse_stat_field(payload, "\"hashrate_10s\":");
    let hashrate_60s = parse_stat_field(payload, "\"hashrate_60s\":");
    let hashrate_15m = parse_stat_field(payload, "\"hashrate_15m\":");
    let shares_accepted = parse_stat_field(payload, "\"shares_accepted\":");
    let shares_rejected = parse_stat_field(payload, "\"shares_rejected\":");
    let difficulty = parse_stat_field(payload, "\"difficulty\":");
    let uptime = parse_stat_field(payload, "\"uptime\":");
    match (hashrate, hashrate_10s, hashrate_60s, hashrate_15m) {
        (Some(h), Some(h10), Some(h60), Some(h15), ) => match (
            shares_accepted,
            shares_rejected,
            difficulty,
            uptime,
        ) {
            (Some(sa), Some(sr), Some(d), Some(u)) => Some(
                MiningStats {
                    hashrate: h,
                    hashrate_10s: h10,
                    hashrate_60s: h60,
                    hashrate_15m: h15,
                    shares_accepted: sa,
                    shares_rejected: sr,
                    difficulty: d,
                    uptime: u,
                },
            ),
            _ => None,
        },
        _ => None,
    }
}

/// One more consecutive failure, saturating instead of wrapping.
pub open spec fn spec_inc_failures(f: u32) -> u32 {
    if f < u32::MAX {
        (f + 1) as u32
    } else {
        f
    }
}

/// The poll interval after `f` consecutive failures: one second doubled
/// per failure, capped at thirty-two seconds.
pub open spec fn spec_backoff_ms(f: u32) -> u64 {
    if f == 0 {
        1000
    } else if f == 1 {
        2000
    } else if f == 2 {
        4000
    } else if f == 3 {
        8000
    } else if f == 4 {
        16000
    } else {
        32000
    }
}

/// The collector: counts consecutive poll failures and publishes parsed
/// snapshots into the supervisor's stats record.
pub struct TelemetryCollector {
    consecutive_failures: u32,
}

impl TelemetryCollector {
    pub closed spec fn spec_failures(self) -> u32 {
        self.consecutive_failures
    }

    /// A fresh collector with no failures recorded.
    pub fn new() -> (r: Self)
        ensures
            r.spec_failures() == 0,
    {
        TelemetryCollector { consecutive_failures: 0 }
    }

    /// Commits one poll: a parsed snapshot while the worker runs is
    /// published whole and clears the failure count; a failed poll while
    /// the worker runs keeps the previous snapshot and counts the failure;
    /// any poll landing while the worker is not running is discarded, and
    /// the failure count rests at zero. The caller of `get_stats` is never
    /// failed on account of a poll.
    pub fn record_poll(&mut self, miner: &mut MinerState, outcome: Option<MiningStats>) -> (published: bool)
        requires
            old(miner).wf(),
        ensures
            final(miner).wf(),
            final(miner).spec_state() == old(miner).spec_state(),
            old(miner).spec_is_running() && outcome is Some ==> final(miner).spec_stats()
                == outcome->0 && final(self).spec_failures() == 0 && published,
            old(miner).spec_is_running() && outcome is None ==> *final(miner) == *old(miner)
                && final(self).spec_failures() == spec_inc_failures(old(self).spec_failures())
                && !published,
            !old(miner).spec_is_running() ==> *final(miner) == *old(miner)
                && final(self).spec_failures() == 0 && !published,
    {
        if miner.is_running() {
            match outcome {
                Some(st) => {
                    miner.publish_stats(st);
                    self.consecutive_failures = 0;
                    true
                },
                None => {
                    if self.consecutive_failures < u32::MAX {
                        self.consecutive_failures = self.consecutive_failures + 1;
                    }
                    false
                },
            }
        } else {
            self.consecutive_failures = 0;
            false
        }
    }

    /// The interval until the next poll, from the failures recorded so far.
    pub fn next_interval_ms(&self) -> (r: u64)
        ensures
            r == spec_backoff_ms(self.spec_failures()),
    {
        let f = self.consecutive_failures;
        if f == 0 {
            1000
        } else if f == 1 {
            2000
        } else if f == 2 {
            4000
        } else if f == 3 {
            8000
        } else if f == 4 {
            16000
        } else {
            32000
        }
    }
}

/// Backoff never shrinks while failures mount, and never passes its cap.
pub proof fn lemma_backoff_monotone_and_capped(f: u32)
    ensures
        spec_backoff_ms(f) <= spec_backoff_ms(spec_inc_failures(f)),
        1000 <= spec_backoff_ms(f) <= 32000,
{
}

} // verus!
