//! The host system probe: CPU identity, core counts, memory figures and
//! OS identity, each sub-query independently best-effort.
//!
//! The probe itself never fails: where a source of information is missing
//! (a file the host does not have, a field the file does not hold), the
//! affected field falls back to a sentinel and every other field is still
//! reported. Reading the host's files is the caller's part; the parsing of
//! their contents is done, and specified, here.

use vstd::prelude::*;
use vstd::string::*;
use crate::text::{
    digits_end, digits_end_fwd, find_char_from, find_char_in, find_line_from, find_line_end,
    find_prefixed_line, line_end_from, parse_u64_digits, parse_u64_from, skip_spaces,
    skip_spaces_fwd, strip_quotes, strip_quotes_in, trim_end_at, trim_end_from,
};

verus! {

/// Host capabilities and identity, computed on demand and never persisted.
#[derive(Debug)]
pub struct SystemInfo {
    pub cpu_name: String,
    pub cpu_cores: u32,
    pub cpu_threads: u32,
    pub memory_total: u64,
    pub memory_available: u64,
    pub os_name: String,
    pub os_version: String,
    pub arch: String,
}

/// Field-by-field agreement of two probe records.
pub open spec fn sysinfo_eq(a: SystemInfo, b: SystemInfo) -> bool {
    &&& a.cpu_name@ == b.cpu_name@
    &&& a.cpu_cores == b.cpu_cores
    &&& a.cpu_threads == b.cpu_threads
    &&& a.memory_total == b.memory_total
    &&& a.memory_available == b.memory_available
    &&& a.os_name@ == b.os_name@
    &&& a.os_version@ == b.os_version@
    &&& a.arch@ == b.arch@
}

impl Clone for SystemInfo {
    fn clone(&self) -> (r: Self)
        ensures
            sysinfo_eq(r, *self),
    {
        SystemInfo {
            cpu_name: self.cpu_name.clone(),
            cpu_cores: self.cpu_cores,
            cpu_threads: self.cpu_threads,
            memory_total: self.memory_total,
            memory_available: self.memory_available,
            os_name: self.os_name.clone(),
            os_version: self.os_version.clone(),
            arch: self.arch.clone(),
        }
    }
}

/// Relies on `num_cpus::get`: the number of logical CPUs available to this
/// process, documented to always be at least 1.
#[verifier::external_body]
fn probe_logical_cpus() -> (r: usize)
    ensures
        1 <= r,
{
    num_cpus::get()
}

/// Relies on `num_cpus::get_physical`: the number of physical cores,
/// documented to always be at least 1.
#[verifier::external_body]
fn probe_physical_cpus() -> (r: usize)
    ensures
        1 <= r,
{
    num_cpus::get_physical()
}

/// The CPU model a cpuinfo listing names: the text between the first colon
/// of the first `model name` line and that line's end (or its second colon),
/// trimmed; the empty string when that line has no colon; a sentinel when
/// no such line exists.
pub open spec fn cpu_name_of(s: Seq<char>) -> Seq<char> {
    match find_line_from(s, "model name"@, 0) {
        Option::None => "Unknown CPU"@,
        Option::Some(i) => {
            let le = line_end_from(s, i);
            match find_char_from(s, ':', i, le) {
                Option::None => Seq::<char>::empty(),
                Option::Some(c1) => {
                    let seg_end = match find_char_from(s, ':', c1 + 1, le) {
                        Option::None => le,
                        Option::Some(c2) => c2,
                    };
                    let a = skip_spaces(s, c1 + 1, seg_end);
                    let b = trim_end_from(s, a, seg_end);
                    s.subrange(a, b)
                },
            }
        },
    }
}

/// Extracts the CPU display name from the host's cpuinfo listing;
/// `None` stands for a listing the host could not provide.
pub fn get_cpu_name(cpuinfo: Option<&str>) -> (r: String)
    ensures
        (match cpuinfo {
            Option::Some(t) => r@ == cpu_name_of(t@),
            Option::None => r@ == "Unknown CPU"@,
        }),
{
    proof {
        reveal_strlit("model name");
    }
    match cpuinfo {
        None => "Unknown CPU".to_owned(),
        Some(t) => {
            match find_prefixed_line(t, "model name") {
                None => "Unknown CPU".to_owned(),
                Some(i) => {
                    let le = find_line_end(t, i);
                    match find_char_in(t, ':', i, le) {
                        None => String::new(),
                        Some(c1) => {
                            let seg_end = match find_char_in(t, ':', c1 + 1, le) {
                                None => le,
                                Some(c2) => c2,
                            };
                            let a = skip_spaces_fwd(t, c1 + 1, seg_end);
                            let b = trim_end_at(t, a, seg_end);
                            t.substring_char(a, b).to_owned()
                        },
                    }
                },
            }
        },
    }
}

/// The version an os-release listing names: the first `VERSION=` line with
/// the prefix dropped and every double quote removed; a sentinel when no
/// such line exists.
pub open spec fn os_version_of(s: Seq<char>) -> Seq<char> {
    match find_line_from(s, "VERSION="@, 0) {
        Option::None => "Unknown"@,
        Option::Some(i) => {
            let rest = i + "VERSION="@.len();
            strip_quotes(s, rest, line_end_from(s, rest))
        },
    }
}

/// Extracts the OS version from the host's os-release listing;
/// `None` stands for a listing the host could not provide.
pub fn get_os_version(os_release: Option<&str>) -> (r: String)
    ensures
        (match os_release {
            Option::Some(t) => r@ == os_version_of(t@),
            Option::None => r@ == "Unknown"@,
        }),
{
    proof {
        reveal_strlit("VERSION=");
    }
    match os_release {
        None => "Unknown".to_owned(),
        Some(t) => {
            match find_prefixed_line(t, "VERSION=") {
                None => "Unknown".to_owned(),
                Some(i) => {
                    let n: usize = t.unicode_len();
                    let klen: usize = "VERSION=".unicode_len();
                    assert(i + klen <= n);
                    let le = find_line_end(t, i + klen);
                    strip_quotes_in(t, i + klen, le)
                },
            }
        },
    }
}

/// The figure a meminfo listing reports under `key`, in bytes: the decimal
/// kibibyte count after the key, scaled by 1024; zero when the line is
/// missing, holds no digits, or reports a figure too large to hold.
pub open spec fn mem_field_value(s: Seq<char>, key: Seq<char>) -> u64 {
    match find_line_from(s, key, 0) {
        Option::None => 0,
        Option::Some(i) => {
            let j = skip_spaces(s, i + key.len(), s.len() as int);
            let k = digits_end(s, j);
            if k == j {
                0
            } else {
                match parse_u64_from(s, j, k, Option::Some(0u64)) {
                    Option::None => 0,
                    Option::Some(v) => if v <= u64::MAX / 1024 {
                        (v * 1024) as u64
                    } else {
                        0
                    },
                }
            }
        },
    }
}

fn parse_mem_field(t: &str, key: &str) -> (r: u64)
    requires
        key@.len() >= 1,
    ensures
        r == mem_field_value(t@, key@),
{
    match find_prefixed_line(t, key) {
        None => 0,
        Some(i) => {
            let n: usize = t.unicode_len();
            let klen: usize = key.unicode_len();
            let j = skip_spaces_fwd(t, i + klen, n);
            let k = digits_end_fwd(t, j);
            if k == j {
                0
            } else {
                match parse_u64_digits(t, j, k) {
                    None => 0,
                    Some(v) => if v <= u64::MAX / 1024 {
                        v * 1024
                    } else {
                        0
                    },
                }
            }
        },
    }
}

/// Total host memory in bytes as the given meminfo listing reports it;
/// zero is the sentinel for a host that offers no reading.
pub fn get_total_memory(meminfo: Option<&str>) -> (r: u64)
    ensures
        (match meminfo {
            Option::Some(t) => r == mem_field_value(t@, "MemTotal:"@),
            Option::None => r == 0,
        }),
{
    proof {
        reveal_strlit("MemTotal:");
    }
    match meminfo {
        None => 0,
        Some(t) => parse_mem_field(t, "MemTotal:"),
    }
}

/// Available host memory in bytes as the given meminfo listing reports it;
/// zero is the sentinel for a host that offers no reading.
pub fn get_available_memory(meminfo: Option<&str>) -> (r: u64)
    ensures
        (match meminfo {
            Option::Some(t) => r == mem_field_value(t@, "MemAvailable:"@),
            Option::None => r == 0,
        }),
{
    proof {
        reveal_strlit("MemAvailable:");
    }
    match meminfo {
        None => 0,
        Some(t) => parse_mem_field(t, "MemAvailable:"),
    }
}

/// Probes the host: core counts are queried live, the given file contents
/// are parsed, and the OS identifiers are passed through. Every sub-query
/// is best-effort; the probe itself always returns a complete record.
pub fn get_system_info(
    cpuinfo: Option<&str>,
    meminfo: Option<&str>,
    os_release: Option<&str>,
    os_name: String,
    arch: String,
) -> (r: SystemInfo)
    ensures
        (match cpuinfo {
            Option::Some(t) => r.cpu_name@ == cpu_name_of(t@),
            Option::None => r.cpu_name@ == "Unknown CPU"@,
        }),
        1 <= r.cpu_cores,
        1 <= r.cpu_threads,
        (match meminfo {
            Option::Some(t) => r.memory_total == mem_field_value(t@, "MemTotal:"@)
                && r.memory_available == mem_field_value(t@, "MemAvailable:"@),
            Option::None => r.memory_total == 0 && r.memory_available == 0,
        }),
        (match os_release {
            Option::Some(t) => r.os_version@ == os_version_of(t@),
            Option::None => r.os_version@ == "Unknown"@,
        }),
        r.os_name@ == os_name@,
        r.arch@ == arch@,
{
    let physical = probe_physical_cpus();
    let logical = probe_logical_cpus();
    let cpu_cores: u32 = if physical > u32::MAX as usize { u32::MAX } else { physical as u32 };
    let cpu_threads: u32 = if logical > u32::MAX as usize { u32::MAX } else { logical as u32 };
    SystemInfo {
        cpu_name: get_cpu_name(cpuinfo),
        cpu_cores,
        cpu_threads,
        memory_total: get_total_memory(meminfo),
        memory_available: get_available_memory(meminfo),
        os_name,
        os_version: get_os_version(os_release),
        arch,
    }
}

} // verus!
