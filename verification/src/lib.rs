//! Supervision of an external mining worker process: configuration
//! validation, the running/stopped lifecycle state machine, host system
//! probing, and telemetry snapshot management.

use vstd::prelude::*;

pub mod config;
pub mod probe;
pub mod stats;
pub mod supervisor;
pub mod telemetry;
pub mod text;

pub use config::ConfigError;
pub use config::MiningConfig;
pub use config::ValidatedConfig;
pub use probe::get_available_memory;
pub use probe::get_cpu_name;
pub use probe::get_os_version;
pub use probe::get_system_info;
pub use probe::get_total_memory;
pub use probe::SystemInfo;
pub use stats::MiningStats;
pub use supervisor::LaunchPlan;
pub use supervisor::MinerState;
pub use supervisor::SupervisorError;
pub use supervisor::SupervisorState;
pub use telemetry::parse_stats;
pub use telemetry::TelemetryCollector;

verus! {

/// Platform the host application runs on; selects the worker executable path.
#[derive(Clone, Copy, Debug, PartialEq, Eq, Structural)]
pub enum HostOs {
    Windows,
    MacOs,
    Linux,
}

/// The relative path of the worker executable for a given platform.
pub open spec fn spec_xmrig_path(os: HostOs) -> Seq<char> {
    match os {
        HostOs::Windows => "binaries/xmrig.exe"@,
        HostOs::MacOs => "binaries/xmrig"@,
        HostOs::Linux => "binaries/xmrig"@,
    }
}

/// Resolves the platform-specific relative path of the worker executable.
pub fn get_xmrig_path(os: HostOs) -> (r: String)
    ensures
        r@ == spec_xmrig_path(os),
{
    match os {
        HostOs::Windows => "binaries/xmrig.exe".to_owned(),
        HostOs::MacOs => "binaries/xmrig".to_owned(),
        HostOs::Linux => "binaries/xmrig".to_owned(),
    }
}

} // verus!
