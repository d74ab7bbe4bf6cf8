//! The process supervisor: the lifecycle state machine that owns the
//! external worker's identity and the published telemetry snapshot.
//!
//! Spawning and killing the worker are operating-system actions the caller
//! performs; the supervisor decides them. A lifecycle transition therefore
//! has two halves: `start` validates and plans the launch, `finish_start`
//! commits the spawn's outcome; `stop` releases the worker's identity for
//! termination, `finish_stop` commits the kill's outcome. The caller runs
//! both halves inside one critical section, so no other caller ever
//! observes the intermediate state.

use vstd::prelude::*;
use vstd::string::*;
use crate::config::{spec_config_error_message, spec_validate, validate, ConfigError, MiningConfig};
use crate::probe::SystemInfo;
use crate::stats::MiningStats;
use crate::text::{dec_chars, u32_to_string};
use crate::{get_xmrig_path, spec_xmrig_path, HostOs};

verus! {

/// The lifecycle of the external worker process.
#[derive(Clone, Copy, Debug, PartialEq, Eq, Structural)]
pub enum SupervisorState {
    /// No worker exists; the stats snapshot is all-default.
    Stopped,
    /// A launch was planned and its spawn is being attempted.
    Starting,
    /// A worker is alive, identified by its process id and start time.
    Running { pid: u32, started_at: u64 },
    /// A termination was requested and its outcome is being committed.
    Stopping,
}

/// A typed lifecycle failure; every variant is recoverable.
#[derive(Clone, Debug)]
pub enum SupervisorError {
    /// `start` was called while a worker is live or a transition is in flight.
    AlreadyRunning,
    /// `stop` was called while no worker is live.
    NotRunning,
    /// The configuration was rejected before any process was touched.
    InvalidConfig(ConfigError),
    /// The operating system refused to spawn the worker.
    SpawnFailed(String),
    /// The termination signal could not be delivered.
    TerminateFailed(String),
}

impl SupervisorError {
    /// A human-readable description of the failure.
    pub fn message(&self) -> (r: String)
        ensures
            *self is AlreadyRunning ==> r@ == "Miner is already running"@,
            *self is NotRunning ==> r@ == "Miner is not running"@,
            *self matches SupervisorError::InvalidConfig(c) ==> r@ == spec_config_error_message(c),
            *self matches SupervisorError::SpawnFailed(e) ==> r@ == "Failed to start XMRig: "@
                + e@,
            *self matches SupervisorError::TerminateFailed(e) ==> r@ == "Failed to stop miner: "@
                + e@,
    {
        match self {
            SupervisorError::AlreadyRunning => "Miner is already running".to_owned(),
            SupervisorError::NotRunning => "Miner is not running".to_owned(),
            SupervisorError::InvalidConfig(c) => c.message(),
            SupervisorError::SpawnFailed(e) => String::from_str("Failed to start XMRig: ").concat(e.as_str()),
            SupervisorError::TerminateFailed(e) => String::from_str("Failed to stop miner: ").concat(e.as_str()),
        }
    }
}

/// The worker invocation a successful `start` plans: the executable path
/// and the full argument vector the caller must spawn.
#[derive(Debug)]
pub struct LaunchPlan {
    pub program: String,
    pub args: Vec<String>,
}

/// The argument vector handed to the worker: the validated configuration,
/// colored output disabled, and the local status endpoint enabled on a
/// loopback address and a fixed port.
pub open spec fn spec_args(c: MiningConfig) -> Seq<Seq<char>> {
    seq![
        "-o"@,
        c.pool_url@,
        "-u"@,
        c.wallet_address@,
        "-p"@,
        c.worker_name@,
        "-t"@,
        dec_chars(c.threads as int),
        "-a"@,
        c.algorithm@,
        "--no-color"@,
        "--http-enabled"@,
        "--http-host=127.0.0.1"@,
        "--http-port=37420"@,
    ]
}

/// Builds the worker's argument vector from a configuration.
pub fn build_args(config: &MiningConfig) -> (r: Vec<String>)
    ensures
        r@.map_values(|a: String| a@) == spec_args(*config),
{
    let mut v: Vec<String> = Vec::new();
    v.push("-o".to_owned());
    v.push(config.pool_url.clone());
    v.push("-u".to_owned());
    v.push(config.wallet_address.clone());
    v.push("-p".to_owned());
    v.push(config.worker_name.clone());
    v.push("-t".to_owned());
    v.push(u32_to_string(config.threads));
    v.push("-a".to_owned());
    v.push(config.algorithm.clone());
    v.push("--no-color".to_owned());
    v.push("--http-enabled".to_owned());
    v.push("--http-host=127.0.0.1".to_owned());
    v.push("--http-port=37420".to_owned());
    assert(v@.map_values(|a: String| a@) =~= spec_args(*config));
    v
}

/// Where `start` leads from each state: only a stopped supervisor with an
/// accepted configuration moves, to `Starting`; every other state is kept.
pub open spec fn next_state_on_start(s: SupervisorState, accepted: bool) -> SupervisorState {
    if s is Stopped && accepted {
        SupervisorState::Starting
    } else {
        s
    }
}

/// Where the spawn outcome leads from `Starting`: to `Running` on success,
/// back to `Stopped` on failure.
pub open spec fn next_state_on_finish_start(pid: Option<u32>, now: u64) -> SupervisorState {
    match pid {
        Option::Some(p) => SupervisorState::Running { pid: p, started_at: now },
        Option::None => SupervisorState::Stopped,
    }
}

/// Where `stop` leads from each state: only a running supervisor moves,
/// to `Stopping`; every other state is kept.
pub open spec fn next_state_on_stop(s: SupervisorState) -> SupervisorState {
    if s is Running {
        SupervisorState::Stopping
    } else {
        s
    }
}

/// The supervisor: the single owner of the lifecycle state and of the
/// published stats snapshot.
pub struct MinerState {
    state: SupervisorState,
    stats: MiningStats,
}

impl MinerState {
    pub closed spec fn spec_state(self) -> SupervisorState {
        self.state
    }

    pub closed spec fn spec_stats(self) -> MiningStats {
        self.stats
    }

    /// True exactly in the `Running` state.
    pub open spec fn spec_is_running(self) -> bool {
        self.spec_state() is Running
    }

    /// The supervisor's invariant: while no worker is live and none has
    /// been spawned yet, the stats snapshot is all-default.
    pub open spec fn wf(self) -> bool {
        (self.spec_state() is Stopped || self.spec_state() is Starting)
            ==> self.spec_stats() == MiningStats::spec_default()
    }

    /// A fresh supervisor: stopped, with the default snapshot.
    pub fn new() -> (r: Self)
        ensures
            r.wf(),
            r.spec_state() == SupervisorState::Stopped,
            r.spec_stats() == MiningStats::spec_default(),
    {
        MinerState { state: SupervisorState::Stopped, stats: MiningStats::default() }
    }

    /// Requests a launch. Only a stopped supervisor accepts: a live or
    /// transitioning one is rejected unchanged, and a configuration the
    /// validator refuses is rejected unchanged, before any process could
    /// be touched. On acceptance the supervisor moves to `Starting` and
    /// returns the plan the caller must spawn; the spawn's outcome is then
    /// committed with `finish_start`.
    pub fn start(&mut self, config: &MiningConfig, sys: &SystemInfo, os: HostOs) -> (r: Result<
        LaunchPlan,
        SupervisorError,
    >)
        requires
            old(self).wf(),
        ensures
            final(self).wf(),
            final(self).spec_state() == next_state_on_start(
                old(self).spec_state(),
                spec_validate(*config, *sys) is Ok,
            ),
            final(self).spec_stats() == old(self).spec_stats(),
            !(old(self).spec_state() is Stopped) ==> (r matches Err(
                SupervisorError::AlreadyRunning,
            )) && *final(self) == *old(self),
            old(self).spec_state() is Stopped && spec_validate(*config, *sys) is Err ==> (r
            matches Err(SupervisorError::InvalidConfig(e2)) && e2 == spec_validate(
                *config,
                *sys,
            )->Err_0) && *final(self) == *old(self),
            old(self).spec_state() is Stopped && spec_validate(*config, *sys) is Ok ==> (r matches
            Ok(plan) && plan.program@ == spec_xmrig_path(os) && plan.args@.map_values(
                |a: String| a@,
            ) == spec_args(*config)),
    {
        match self.state {
            SupervisorState::Stopped => {},
            _ => {
                return Err(SupervisorError::AlreadyRunning);
            },
        }
        match validate(config, sys) {
            Err(e) => Err(SupervisorError::InvalidConfig(e)),
            Ok(_) => {
                self.state = SupervisorState::Starting;
                Ok(LaunchPlan { program: get_xmrig_path(os), args: build_args(config) })
            },
        }
    }

    /// Commits a spawn outcome: the worker's process id on success, the
    /// operating system's refusal on failure. Success records the worker
    /// and the start time and moves to `Running`; failure moves cleanly
    /// back to `Stopped`, so a later `start` is not blocked.
    pub fn finish_start(&mut self, outcome: Result<u32, String>, now: u64) -> (r: Result<
        String,
        SupervisorError,
    >)
        requires
            old(self).wf(),
            old(self).spec_state() is Starting,
        ensures
            final(self).wf(),
            final(self).spec_state() == next_state_on_finish_start(
                (match outcome {
                    Result::Ok(pid) => Option::Some(pid),
                    Result::Err(_) => Option::None,
                }),
                now,
            ),
            final(self).spec_stats() == MiningStats::spec_default(),
            outcome is Ok ==> (r matches Ok(m) && m@ == "Mining started successfully"@),
            outcome matches Err(reason) ==> (r matches Err(SupervisorError::SpawnFailed(m))
                && m@ == "Failed to start XMRig: "@ + reason@),
    {
        match outcome {
            Ok(pid) => {
                self.state = SupervisorState::Running { pid, started_at: now };
                Ok("Mining started successfully".to_owned())
            },
            Err(reason) => {
                self.state = SupervisorState::Stopped;
                self.stats = MiningStats::default();
                Err(
                    SupervisorError::SpawnFailed(
                        String::from_str("Failed to start XMRig: ").concat(reason.as_str()),
                    ),
                )
            },
        }
    }

    /// Requests a termination. Only a running supervisor accepts; a stopped
    /// or transitioning one is rejected unchanged. On acceptance the
    /// supervisor moves to `Stopping` and hands back the worker's process
    /// id for the caller to terminate; the kill's outcome is then committed
    /// with `finish_stop`.
    pub fn stop(&mut self) -> (r: Result<u32, SupervisorError>)
        requires
            old(self).wf(),
        ensures
            final(self).wf(),
            final(self).spec_state() == next_state_on_stop(old(self).spec_state()),
            final(self).spec_stats() == old(self).spec_stats(),
            old(self).spec_state() matches SupervisorState::Running { pid, started_at } ==> (
            r matches Ok(p) && p == pid),
            !(old(self).spec_state() is Running) ==> (r matches Err(SupervisorError::NotRunning))
                && *final(self) == *old(self),
    {
        match self.state {
            SupervisorState::Running { pid, started_at: _ } => {
                self.state = SupervisorState::Stopping;
                Ok(pid)
            },
            _ => Err(SupervisorError::NotRunning),
        }
    }

    /// Commits a kill outcome. Either way the supervisor ends `Stopped`
    /// with the default snapshot — the desired end state, "not running",
    /// holds even when the worker was already gone — but a failed
    /// termination is still reported for visibility.
    pub fn finish_stop(&mut self, kill_result: Result<(), String>) -> (r: Result<
        String,
        SupervisorError,
    >)
        requires
            old(self).wf(),
            old(self).spec_state() is Stopping,
        ensures
            final(self).wf(),
            final(self).spec_state() is Stopped,
            final(self).spec_stats() == MiningStats::spec_default(),
            kill_result is Ok ==> (r matches Ok(m) && m@ == "Mining stopped"@),
            kill_result matches Err(reason) ==> (r matches Err(
                SupervisorError::TerminateFailed(m),
            ) && m@ == "Failed to stop miner: "@ + reason@),
    {
        self.state = SupervisorState::Stopped;
        self.stats = MiningStats::default();
        match kill_result {
            Ok(()) => Ok("Mining stopped".to_owned()),
            Err(reason) => Err(
                SupervisorError::TerminateFailed(
                    String::from_str("Failed to stop miner: ").concat(reason.as_str()),
                ),
            ),
        }
    }

    /// Publishes a telemetry snapshot whole, so no reader observes a
    /// half-updated record. Only a running supervisor accepts one; a
    /// snapshot landing in any other state is discarded, keeping the
    /// invariant that a stopped supervisor reports the default record.
    pub fn publish_stats(&mut self, st: MiningStats)
        requires
            old(self).wf(),
        ensures
            final(self).wf(),
            final(self).spec_state() == old(self).spec_state(),
            old(self).spec_is_running() ==> final(self).spec_stats() == st,
            !old(self).spec_is_running() ==> *final(self) == *old(self),
    {
        match self.state {
            SupervisorState::Running { .. } => {
                self.stats = st;
            },
            _ => {},
        }
    }

    /// A pure read: true exactly while the latest committed state is
    /// `Running`.
    pub fn is_running(&self) -> (r: bool)
        ensures
            r == self.spec_is_running(),
    {
        match self.state {
            SupervisorState::Running { .. } => true,
            _ => false,
        }
    }

    /// A copy of the latest published stats snapshot.
    pub fn get_stats(&self) -> (r: MiningStats)
        ensures
            r == self.spec_stats(),
    {
        self.stats
    }
}

/// A full successful lifecycle pass, stated over the transition relation:
/// for every configuration the validator accepts, a `start` from `Stopped`
/// reaches `Starting`; a successful spawn reaches `Running`, where the
/// supervisor reports running; `stop` then reaches `Stopping`, and the
/// committed kill ends `Stopped`, where it reports not running.
pub proof fn lemma_lifecycle_round_trip(
    s: SupervisorState,
    c: MiningConfig,
    sys: SystemInfo,
    pid: u32,
    now: u64,
)
    requires
        s is Stopped,
        spec_validate(c, sys) is Ok,
    ensures
        next_state_on_start(s, spec_validate(c, sys) is Ok) == SupervisorState::Starting,
        next_state_on_finish_start(Option::Some(pid), now) == (SupervisorState::Running {
            pid,
            started_at: now,
        }),
        next_state_on_finish_start(Option::Some(pid), now) is Running,
        next_state_on_stop(next_state_on_finish_start(Option::Some(pid), now))
            == SupervisorState::Stopping,
        !(SupervisorState::Stopped is Running),
{
}

/// `start` anywhere but `Stopped` keeps the state exactly as it was,
/// whatever the validator said: an idempotent rejection, not a no-op.
pub proof fn lemma_start_rejection_preserves_state(s: SupervisorState, accepted: bool)
    requires
        !(s is Stopped),
    ensures
        next_state_on_start(s, accepted) == s,
{
}

/// `stop` anywhere but `Running` keeps the state exactly as it was.
pub proof fn lemma_stop_rejection_preserves_state(s: SupervisorState)
    requires
        !(s is Running),
    ensures
        next_state_on_stop(s) == s,
{
}

/// Every well-formed stopped supervisor reports the all-default snapshot:
/// with `finish_stop`'s contract, any committed stop leaves `get_stats`
/// returning the default record.
pub proof fn lemma_stopped_stats_default(m: MinerState)
    requires
        m.wf(),
        m.spec_state() is Stopped,
    ensures
        m.spec_stats() == MiningStats::spec_default(),
{
}

} // verus!
