//! The Linux probe: the one probe on this target that samples live, through
//! the `procfs` crate.
//!
//! The probe reads the scheduling record of `/proc/self/stat`, the
//! descriptor count of `/proc/self/fd`, and the soft limits of
//! `/proc/self/limits`, and converts the tick-based CPU and start-time
//! fields to nanoseconds and seconds with the system clock-tick frequency
//! and boot time.  The `procfs` calls stand behind trusted wrappers that
//! return plain readings; everything after them — the unit conversions and
//! which fields a round of readings populates — is verified against
//! [`spec_snapshot`].

use vstd::prelude::*;

use procfs::process::LimitValue;

use super::Metrics;
use super::spec_pages_to_bytes;
use super::pages_to_bytes;

verus! {

/// The fields of the `/proc/self/stat` record that the probe reads: CPU
/// ticks in user and kernel mode, the thread count (signed, as the kernel
/// declares it), the start tick, the virtual size in bytes and the resident
/// size in pages.
#[derive(Clone, Copy, Debug)]
pub struct StatReading {
    pub utime: u64,
    pub stime: u64,
    pub num_threads: i64,
    pub starttime: u64,
    pub vsize: u64,
    pub rss_pages: u64,
}

/// One soft resource limit as `/proc/self/limits` reports it: either a
/// concrete value or explicitly unlimited.
#[derive(Clone, Copy, Debug)]
pub enum LimitSetting {
    Unlimited,
    Value(u64),
}

/// The metric value of a soft limit: an explicitly unlimited limit is
/// reported as `0`, a concrete limit as itself.
pub open spec fn spec_limit_value(l: LimitSetting) -> u64 {
    match l {
        LimitSetting::Unlimited => 0,
        LimitSetting::Value(v) => v,
    }
}

/// Map one soft limit to its metric value.
pub fn limit_value(l: LimitSetting) -> (r: u64)
    ensures
        r == spec_limit_value(l),
{
    match l {
        LimitSetting::Unlimited => 0,
        LimitSetting::Value(v) => v,
    }
}

/// The two soft limits of `/proc/self/limits` that the probe reads.
#[derive(Clone, Copy, Debug)]
pub struct LimitsReading {
    pub max_open_files_soft: LimitSetting,
    pub max_address_space_soft: LimitSetting,
}

/// Total CPU time in nanoseconds from tick counts: `ticks * 1e9 / tps`,
/// rounded down.  Absent when the tick frequency reads zero or the total
/// does not fit the nanosecond representation.
pub open spec fn spec_cpu_ticks_to_nanos(utime: u64, stime: u64, tps: u64) -> Option<u64> {
    if tps == 0 {
        None
    } else {
        let n = (utime + stime) * 1_000_000_000 / (tps as int);
        if n <= u64::MAX {
            Some(n as u64)
        } else {
            None
        }
    }
}

/// Convert user plus kernel CPU ticks to nanoseconds.
pub fn cpu_ticks_to_nanos(utime: u64, stime: u64, tps: u64) -> (r: Option<u64>)
    ensures
        r == spec_cpu_ticks_to_nanos(utime, stime, tps),
{
    if tps == 0 {
        return None;
    }
    let total: u128 = (utime as u128 + stime as u128) * 1_000_000_000;
    let n: u128 = total / (tps as u128);
    if n <= u64::MAX as u128 {
        Some(n as u64)
    } else {
        None
    }
}

/// Process start time in seconds since the unix epoch: the boot time plus
/// the start tick divided by the tick frequency, rounded down.  Absent when
/// the tick frequency reads zero or the sum does not fit.
pub open spec fn spec_start_time_seconds(boot: u64, starttime: u64, tps: u64) -> Option<u64> {
    if tps == 0 {
        None
    } else if boot + (starttime as int) / (tps as int) <= u64::MAX {
        Some((boot + (starttime as int) / (tps as int)) as u64)
    } else {
        None
    }
}

/// Convert a boot time and a start tick to seconds since the unix epoch.
pub fn start_time_seconds(boot: u64, starttime: u64, tps: u64) -> (r: Option<u64>)
    ensures
        r == spec_start_time_seconds(boot, starttime, tps),
{
    if tps == 0 {
        return None;
    }
    boot.checked_add(starttime / tps)
}

/// One round of raw Linux readings, each absent when its read failed.
/// `ticks_per_second` and `page_size` are the process-wide constants of
/// `sysconf`; `boot_time` is the kernel boot time in seconds since the unix
/// epoch.
#[derive(Clone, Copy, Debug)]
pub struct LinuxReadings {
    pub stat: Option<StatReading>,
    pub ticks_per_second: u64,
    pub boot_time: Option<u64>,
    pub fd_count: Option<u64>,
    pub limits: Option<LimitsReading>,
    pub page_size: u64,
}

/// The snapshot the Linux probe builds from one round of readings.
pub open spec fn spec_snapshot(rd: LinuxReadings) -> Metrics {
    Metrics {
        cpu_nanos_total: match rd.stat {
            Some(st) => spec_cpu_ticks_to_nanos(st.utime, st.stime, rd.ticks_per_second),
            None => None,
        },
        open_fds: rd.fd_count,
        max_fds: match rd.limits {
            Some(l) => Some(spec_limit_value(l.max_open_files_soft)),
            None => None,
        },
        virtual_memory_bytes: match rd.stat {
            Some(st) => Some(st.vsize),
            None => None,
        },
        virtual_memory_max_bytes: match rd.limits {
            Some(l) => Some(spec_limit_value(l.max_address_space_soft)),
            None => None,
        },
        resident_memory_bytes: match rd.stat {
            Some(st) => spec_pages_to_bytes(st.rss_pages, rd.page_size),
            None => None,
        },
        start_time_seconds: match (rd.stat, rd.boot_time) {
            (Some(st), Some(boot)) => spec_start_time_seconds(
                boot,
                st.starttime,
                rd.ticks_per_second,
            ),
            _ => None,
        },
        threads: match rd.stat {
            Some(st) => if st.num_threads >= 0 {
                Some(st.num_threads as u64)
            } else {
                None
            },
            None => None,
        },
    }
}

/// Build the Linux snapshot from one round of raw readings.
pub fn snapshot_from_readings(rd: LinuxReadings) -> (m: Metrics)
    ensures
        m == spec_snapshot(rd),
{
    let mut m = Metrics::empty();
    if let Some(st) = rd.stat {
        m.cpu_nanos_total = cpu_ticks_to_nanos(st.utime, st.stime, rd.ticks_per_second);
        if let Some(boot) = rd.boot_time {
            m.start_time_seconds = start_time_seconds(boot, st.starttime, rd.ticks_per_second);
        }
        m.virtual_memory_bytes = Some(st.vsize);
        m.resident_memory_bytes = pages_to_bytes(st.rss_pages, rd.page_size);
        if st.num_threads >= 0 {
            m.threads = Some(st.num_threads as u64);
        }
    }
    m.open_fds = rd.fd_count;
    if let Some(l) = rd.limits {
        m.max_fds = Some(limit_value(l.max_open_files_soft));
        m.virtual_memory_max_bytes = Some(limit_value(l.max_address_space_soft));
    }
    m
}

#[verifier::external_type_specification]
#[verifier::external_body]
pub struct ExProcess(procfs::process::Process);

/// Relies on `procfs::process::Process::myself`: a handle on `/proc/self`
/// for the calling process, or an error when it cannot be opened.
#[verifier::external_body]
fn proc_myself() -> (r: Option<procfs::process::Process>) {
    procfs::process::Process::myself().ok()
}

/// Relies on `procfs::process::Process::stat`: the parsed record of
/// `/proc/<pid>/stat`.  The wrapper hands on the six fields the probe reads.
#[verifier::external_body]
fn proc_stat(p: &procfs::process::Process) -> (r: Option<StatReading>) {
    match p.stat() {
        Ok(s) => Some(
            StatReading {
                utime: s.utime,
                stime: s.stime,
                num_threads: s.num_threads,
                starttime: s.starttime,
                vsize: s.vsize,
                rss_pages: s.rss,
            },
        ),
        Err(_) => None,
    }
}

/// Relies on `procfs::process::Process::fd_count`: the number of entries in
/// `/proc/<pid>/fd`.
#[verifier::external_body]
fn proc_fd_count(p: &procfs::process::Process) -> (r: Option<usize>) {
    p.fd_count().ok()
}

/// Relies on `procfs::process::Process::limits`: the parsed record of
/// `/proc/<pid>/limits`.  The wrapper hands on the two soft limits the
/// probe reads, variant for variant.
#[verifier::external_body]
fn proc_limits(p: &procfs::process::Process) -> (r: Option<LimitsReading>) {
    match p.limits() {
        Ok(l) => Some(
            LimitsReading {
                max_open_files_soft: match l.max_open_files.soft_limit {
                    LimitValue::Unlimited => LimitSetting::Unlimited,
                    LimitValue::Value(v) => LimitSetting::Value(v),
                },
                max_address_space_soft: match l.max_address_space.soft_limit {
                    LimitValue::Unlimited => LimitSetting::Unlimited,
                    LimitValue::Value(v) => LimitSetting::Value(v),
                },
            },
        ),
        Err(_) => None,
    }
}

/// Relies on `procfs::ticks_per_second`: the clock-tick frequency from
/// `sysconf(_SC_CLK_TCK)`, an OS-wide constant for the process lifetime.
#[verifier::external_body]
fn ticks_per_second() -> (r: u64) {
    procfs::ticks_per_second()
}

/// Relies on `procfs::boot_time_secs`: the kernel boot time in seconds
/// since the unix epoch, read from `/proc/stat`.
#[verifier::external_body]
fn boot_time_secs() -> (r: Option<u64>) {
    procfs::boot_time_secs().ok()
}

/// Relies on `procfs::page_size`: the memory page size from
/// `sysconf(_SC_PAGESIZE)`, an OS-wide constant for the process lifetime.
#[verifier::external_body]
fn page_size() -> (r: u64) {
    procfs::page_size()
}

/// Collect metrics for the calling process, live.
///
/// Every sub-read is independent: a failed one only leaves its target
/// fields absent.  The clauses below hold whatever the kernel reported:
/// both limit fields come from the one limits read, and the stat-derived
/// fields are only ever present together with the virtual size.
pub fn collect() -> (m: Metrics)
    ensures
        exists|rd: LinuxReadings| m == #[trigger] spec_snapshot(rd),
        m.max_fds is Some <==> m.virtual_memory_max_bytes is Some,
        m.cpu_nanos_total is Some ==> m.virtual_memory_bytes is Some,
        m.start_time_seconds is Some ==> m.virtual_memory_bytes is Some,
        m.threads is Some ==> m.virtual_memory_bytes is Some,
{
    let mut rd = LinuxReadings {
        stat: None,
        ticks_per_second: ticks_per_second(),
        boot_time: boot_time_secs(),
        fd_count: None,
        limits: None,
        page_size: page_size(),
    };
    if let Some(p) = proc_myself() {
        rd.stat = proc_stat(&p);
        rd.limits = proc_limits(&p);
        if let Some(n) = proc_fd_count(&p) {
            rd.fd_count = Some(n as u64);
        }
    }
    snapshot_from_readings(rd)
}

} // verus!
