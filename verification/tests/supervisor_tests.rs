use miner_supervisor::{
    HostOs, MiningConfig, MiningStats, MinerState, SupervisorError, SystemInfo,
};

fn sample_sys(cpu_threads: u32) -> SystemInfo {
    SystemInfo {
        cpu_name: "Test CPU".to_string(),
        cpu_cores: 4,
        cpu_threads,
        memory_total: 8 * 1024 * 1024 * 1024,
        memory_available: 4 * 1024 * 1024 * 1024,
        os_name: "linux".to_string(),
        os_version: "6.1".to_string(),
        arch: "x86_64".to_string(),
    }
}

fn sample_config(threads: u32) -> MiningConfig {
    MiningConfig {
        pool_url: "pool.example:3333".to_string(),
        wallet_address: "4Ab...".to_string(),
        worker_name: "w1".to_string(),
        threads,
        coin_type: "XMR".to_string(),
        algorithm: "rx/0".to_string(),
    }
}

#[test]
fn new_supervisor_is_stopped_with_default_stats() {
    let m = MinerState::new();
    assert!(!m.is_running());
    assert_eq!(m.get_stats(), MiningStats::default());
}

#[test]
fn full_lifecycle_on_eight_core_host() {
    let mut m = MinerState::new();
    let sys = sample_sys(8);
    let cfg = sample_config(4);

    let plan = m.start(&cfg, &sys, HostOs::Linux).expect("start should be accepted");
    assert_eq!(plan.program, "binaries/xmrig");
    let expected: Vec<String> = vec![
        "-o",
        "pool.example:3333",
        "-u",
        "4Ab...",
        "-p",
        "w1",
        "-t",
        "4",
        "-a",
        "rx/0",
        "--no-color",
        "--http-enabled",
        "--http-host=127.0.0.1",
        "--http-port=37420",
    ]
    .into_iter()
    .map(|s| s.to_string())
    .collect();
    assert_eq!(plan.args, expected);
    assert!(!m.is_running());

    let ack = m.finish_start(Ok(4321), 1700000000).expect("spawn commit should succeed");
    assert_eq!(ack, "Mining started successfully");
    assert!(m.is_running());

    let again = m.start(&cfg, &sys, HostOs::Linux);
    assert!(matches!(again, Err(SupervisorError::AlreadyRunning)));
    assert!(m.is_running());

    let pid = m.stop().expect("stop should be accepted while running");
    assert_eq!(pid, 4321);
    let ack = m.finish_stop(Ok(())).expect("kill commit should succeed");
    assert_eq!(ack, "Mining stopped");
    assert!(!m.is_running());
    assert_eq!(m.get_stats(), MiningStats::default());
}

#[test]
fn start_with_zero_threads_fails_before_any_spawn() {
    let mut m = MinerState::new();
    let sys = sample_sys(8);
    let cfg = sample_config(0);
    let r = m.start(&cfg, &sys, HostOs::Linux);
    assert!(matches!(r, Err(SupervisorError::InvalidConfig(_))));
    // No plan was handed out, so no process could have been spawned,
    // and the supervisor still accepts a corrected start.
    assert!(!m.is_running());
    let ok = m.start(&sample_config(4), &sys, HostOs::Linux);
    assert!(ok.is_ok());
}

#[test]
fn spawn_failure_returns_cleanly_to_stopped_and_start_retries() {
    let mut m = MinerState::new();
    let sys = sample_sys(8);
    let cfg = sample_config(4);

    let _plan = m.start(&cfg, &sys, HostOs::Linux).expect("start should be accepted");
    let r = m.finish_start(Err("No such file or directory".to_string()), 0);
    match r {
        Err(SupervisorError::SpawnFailed(msg)) => {
            assert_eq!(msg, "Failed to start XMRig: No such file or directory");
        }
        other => panic!("expected SpawnFailed, got {:?}", other),
    }
    assert!(!m.is_running());
    assert_eq!(m.get_stats(), MiningStats::default());

    // No leftover state blocks a clean retry.
    let plan = m.start(&cfg, &sys, HostOs::Linux).expect("retry should be accepted");
    assert_eq!(plan.program, "binaries/xmrig");
    m.finish_start(Ok(77), 5).expect("spawn commit should succeed");
    assert!(m.is_running());
}

#[test]
fn stop_while_stopped_fails_with_not_running_and_changes_nothing() {
    let mut m = MinerState::new();
    let r = m.stop();
    assert!(matches!(r, Err(SupervisorError::NotRunning)));
    assert!(!m.is_running());
    assert_eq!(m.get_stats(), MiningStats::default());
}

#[test]
fn stats_reset_to_default_after_stop() {
    let mut m = MinerState::new();
    let sys = sample_sys(8);
    m.start(&sample_config(2), &sys, HostOs::Linux).expect("start should be accepted");
    m.finish_start(Ok(9), 100).expect("spawn commit should succeed");
    let live = MiningStats {
        hashrate: 5000,
        hashrate_10s: 4900,
        hashrate_60s: 4800,
        hashrate_15m: 4700,
        shares_accepted: 12,
        shares_rejected: 1,
        difficulty: 250000,
        uptime: 60,
    };
    m.publish_stats(live);
    assert_eq!(m.get_stats(), live);

    m.stop().expect("stop should be accepted");
    m.finish_stop(Ok(())).expect("kill commit should succeed");
    assert_eq!(m.get_stats(), MiningStats::default());
}

#[test]
fn failed_kill_still_ends_stopped_but_is_reported() {
    let mut m = MinerState::new();
    let sys = sample_sys(8);
    m.start(&sample_config(1), &sys, HostOs::Linux).expect("start should be accepted");
    m.finish_start(Ok(10), 0).expect("spawn commit should succeed");
    m.stop().expect("stop should be accepted");
    let r = m.finish_stop(Err("Operation not permitted".to_string()));
    match r {
        Err(SupervisorError::TerminateFailed(msg)) => {
            assert_eq!(msg, "Failed to stop miner: Operation not permitted");
        }
        other => panic!("expected TerminateFailed, got {:?}", other),
    }
    assert!(!m.is_running());
    assert_eq!(m.get_stats(), MiningStats::default());
}

#[test]
fn error_messages_match_their_variants() {
    assert_eq!(SupervisorError::AlreadyRunning.message(), "Miner is already running");
    assert_eq!(SupervisorError::NotRunning.message(), "Miner is not running");
    assert_eq!(
        SupervisorError::SpawnFailed("boom".to_string()).message(),
        "Failed to start XMRig: boom"
    );
    assert_eq!(
        SupervisorError::TerminateFailed("gone".to_string()).message(),
        "Failed to stop miner: gone"
    );
}

#[test]
fn xmrig_path_is_platform_specific() {
    assert_eq!(miner_supervisor::get_xmrig_path(HostOs::Windows), "binaries/xmrig.exe");
    assert_eq!(miner_supervisor::get_xmrig_path(HostOs::MacOs), "binaries/xmrig");
    assert_eq!(miner_supervisor::get_xmrig_path(HostOs::Linux), "binaries/xmrig");
}

#[test]
fn thread_count_is_formatted_in_decimal() {
    let mut m = MinerState::new();
    let sys = sample_sys(64);
    let plan = m.start(&sample_config(48), &sys, HostOs::Linux).expect("start should be accepted");
    assert_eq!(plan.args[7], "48");
}
