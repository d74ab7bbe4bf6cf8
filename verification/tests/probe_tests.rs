use miner_supervisor::{
    get_available_memory, get_cpu_name, get_os_version, get_system_info, get_total_memory,
};

const CPUINFO: &str = "processor\t: 0\nvendor_id\t: AuthenticAMD\nmodel name\t: AMD Ryzen 7 5800X 8-Core Processor\nflags\t\t: fpu vme\n";

const MEMINFO: &str = "MemTotal:       16323480 kB\nMemFree:         1048576 kB\nMemAvailable:    8161740 kB\nBuffers:          262144 kB\n";

const OS_RELEASE: &str = "NAME=\"Ubuntu\"\nVERSION=\"22.04.3 LTS (Jammy Jellyfish)\"\nID=ubuntu\n";

#[test]
fn cpu_name_is_extracted_and_trimmed() {
    assert_eq!(get_cpu_name(Some(CPUINFO)), "AMD Ryzen 7 5800X 8-Core Processor");
}

#[test]
fn cpu_name_falls_back_when_listing_is_missing() {
    assert_eq!(get_cpu_name(None), "Unknown CPU");
    assert_eq!(get_cpu_name(Some("processor: 0\nflags: fpu\n")), "Unknown CPU");
}

#[test]
fn cpu_name_line_without_colon_yields_empty() {
    assert_eq!(get_cpu_name(Some("model name AMD Ryzen\n")), "");
}

#[test]
fn cpu_name_stops_at_a_second_colon() {
    assert_eq!(get_cpu_name(Some("model name : Odd: CPU\n")), "Odd");
}

#[test]
fn total_memory_is_scaled_to_bytes() {
    assert_eq!(get_total_memory(Some(MEMINFO)), 16323480 * 1024);
}

#[test]
fn available_memory_is_scaled_to_bytes() {
    assert_eq!(get_available_memory(Some(MEMINFO)), 8161740 * 1024);
}

#[test]
fn memory_sentinel_is_zero_not_a_constant() {
    assert_eq!(get_total_memory(None), 0);
    assert_eq!(get_available_memory(None), 0);
    assert_eq!(get_total_memory(Some("MemFree: 12 kB\n")), 0);
    assert_eq!(get_total_memory(Some("MemTotal:  kB\n")), 0);
}

#[test]
fn memory_figure_too_large_for_u64_is_the_sentinel() {
    assert_eq!(get_total_memory(Some("MemTotal: 99999999999999999999999999 kB\n")), 0);
}

#[test]
fn memory_key_must_start_its_line() {
    assert_eq!(get_total_memory(Some("XMemTotal: 5 kB\n")), 0);
    assert_eq!(get_total_memory(Some("x\nMemTotal: 5 kB\n")), 5 * 1024);
}

#[test]
fn os_version_drops_prefix_and_quotes() {
    assert_eq!(get_os_version(Some(OS_RELEASE)), "22.04.3 LTS (Jammy Jellyfish)");
}

#[test]
fn os_version_falls_back_when_listing_is_missing() {
    assert_eq!(get_os_version(None), "Unknown");
    assert_eq!(get_os_version(Some("NAME=Debian\nID=debian\n")), "Unknown");
}

#[test]
fn os_version_without_quotes_is_kept_verbatim() {
    assert_eq!(get_os_version(Some("VERSION=12 (bookworm)\n")), "12 (bookworm)");
}

#[test]
fn probe_never_fails_even_with_nothing_to_read() {
    let info = get_system_info(None, None, None, "linux".to_string(), "x86_64".to_string());
    assert_eq!(info.cpu_name, "Unknown CPU");
    assert!(info.cpu_cores >= 1);
    assert!(info.cpu_threads >= 1);
    assert_eq!(info.memory_total, 0);
    assert_eq!(info.memory_available, 0);
    assert_eq!(info.os_name, "linux");
    assert_eq!(info.os_version, "Unknown");
    assert_eq!(info.arch, "x86_64");
}

#[test]
fn probe_reads_every_field_from_the_given_listings() {
    let info = get_system_info(
        Some(CPUINFO),
        Some(MEMINFO),
        Some(OS_RELEASE),
        "linux".to_string(),
        "x86_64".to_string(),
    );
    assert_eq!(info.cpu_name, "AMD Ryzen 7 5800X 8-Core Processor");
    assert_eq!(info.memory_total, 16323480 * 1024);
    assert_eq!(info.memory_available, 8161740 * 1024);
    assert_eq!(info.os_version, "22.04.3 LTS (Jammy Jellyfish)");
    assert!(info.cpu_threads >= 1);
    assert!(info.cpu_cores >= 1);
}

#[test]
fn probed_cpu_counts_agree_with_the_host() {
    let info = get_system_info(None, None, None, "linux".to_string(), "x86_64".to_string());
    assert_eq!(info.cpu_threads as usize, num_cpus::get());
    assert_eq!(info.cpu_cores as usize, num_cpus::get_physical());
}
