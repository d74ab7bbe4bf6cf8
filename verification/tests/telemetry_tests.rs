use miner_supervisor::{
    parse_stats, HostOs, MiningConfig, MiningStats, MinerState, SystemInfo, TelemetryCollector,
};

const PAYLOAD: &str = "{\"hashrate\": 5230, \"hashrate_10s\": 5100, \"hashrate_60s\": 5000, \"hashrate_15m\": 4900, \"shares_accepted\": 42, \"shares_rejected\": 2, \"difficulty\": 250000, \"uptime\": 3600}";

fn running_miner() -> MinerState {
    let sys = SystemInfo {
        cpu_name: "Test CPU".to_string(),
        cpu_cores: 4,
        cpu_threads: 8,
        memory_total: 0,
        memory_available: 0,
        os_name: "linux".to_string(),
        os_version: "6.1".to_string(),
        arch: "x86_64".to_string(),
    };
    let cfg = MiningConfig {
        pool_url: "pool.example:3333".to_string(),
        wallet_address: "4Ab...".to_string(),
        worker_name: "w1".to_string(),
        threads: 4,
        coin_type: "XMR".to_string(),
        algorithm: "rx/0".to_string(),
    };
    let mut m = MinerState::new();
    m.start(&cfg, &sys, HostOs::Linux).expect("start should be accepted");
    m.finish_start(Ok(1), 0).expect("spawn commit should succeed");
    m
}

#[test]
fn a_complete_payload_parses_into_a_snapshot() {
    let st = parse_stats(PAYLOAD).expect("payload should parse");
    assert_eq!(st.hashrate, 5230);
    assert_eq!(st.hashrate_10s, 5100);
    assert_eq!(st.hashrate_60s, 5000);
    assert_eq!(st.hashrate_15m, 4900);
    assert_eq!(st.shares_accepted, 42);
    assert_eq!(st.shares_rejected, 2);
    assert_eq!(st.difficulty, 250000);
    assert_eq!(st.uptime, 3600);
}

#[test]
fn fractional_hashrates_are_taken_rounded_down() {
    let payload = "{\"hashrate\": 5230.75, \"hashrate_10s\": 5100.5, \"hashrate_60s\": 5000.0, \"hashrate_15m\": 4900.25, \"shares_accepted\": 1, \"shares_rejected\": 0, \"difficulty\": 1, \"uptime\": 1}";
    let st = parse_stats(payload).expect("payload should parse");
    assert_eq!(st.hashrate, 5230);
    assert_eq!(st.hashrate_10s, 5100);
}

#[test]
fn a_payload_missing_a_figure_is_malformed() {
    let payload = "{\"hashrate\": 5230, \"uptime\": 3600}";
    assert!(parse_stats(payload).is_none());
    assert!(parse_stats("").is_none());
    assert!(parse_stats("not a payload").is_none());
}

#[test]
fn a_figure_without_digits_is_malformed() {
    let payload = PAYLOAD.replace("3600", "soon");
    assert!(parse_stats(payload.as_str()).is_none());
}

#[test]
fn published_snapshots_are_visible_while_running() {
    let mut m = running_miner();
    let mut c = TelemetryCollector::new();
    let st = parse_stats(PAYLOAD).expect("payload should parse");
    assert!(c.record_poll(&mut m, Some(st)));
    assert_eq!(m.get_stats(), st);
    assert_eq!(c.next_interval_ms(), 1000);
}

#[test]
fn failed_polls_keep_the_previous_snapshot_and_back_off() {
    let mut m = running_miner();
    let mut c = TelemetryCollector::new();
    let st = parse_stats(PAYLOAD).expect("payload should parse");
    assert!(c.record_poll(&mut m, Some(st)));

    assert_eq!(c.next_interval_ms(), 1000);
    assert!(!c.record_poll(&mut m, None));
    assert_eq!(m.get_stats(), st);
    assert_eq!(c.next_interval_ms(), 2000);
    assert!(!c.record_poll(&mut m, None));
    assert_eq!(c.next_interval_ms(), 4000);
    assert!(!c.record_poll(&mut m, None));
    assert_eq!(c.next_interval_ms(), 8000);
    assert!(!c.record_poll(&mut m, None));
    assert_eq!(c.next_interval_ms(), 16000);
    assert!(!c.record_poll(&mut m, None));
    assert_eq!(c.next_interval_ms(), 32000);
    assert!(!c.record_poll(&mut m, None));
    assert_eq!(c.next_interval_ms(), 32000);

    // A successful poll clears the backoff.
    assert!(c.record_poll(&mut m, Some(st)));
    assert_eq!(c.next_interval_ms(), 1000);
}

#[test]
fn polls_landing_while_stopped_are_discarded() {
    let mut m = MinerState::new();
    let mut c = TelemetryCollector::new();
    let st = parse_stats(PAYLOAD).expect("payload should parse");
    assert!(!c.record_poll(&mut m, Some(st)));
    assert_eq!(m.get_stats(), MiningStats::default());
    assert_eq!(c.next_interval_ms(), 1000);
}

#[test]
fn snapshots_published_while_stopped_are_discarded() {
    let mut m = MinerState::new();
    let st = parse_stats(PAYLOAD).expect("payload should parse");
    m.publish_stats(st);
    assert_eq!(m.get_stats(), MiningStats::default());
}
