//! The common snapshot schema and the unit conversions that every platform
//! probe shares.
//!
//! A probe samples kernel-maintained accounting state for the calling process
//! and returns a [`Metrics`] snapshot.  Every field is independently optional:
//! absence is the only error signal, no field ever carries a sentinel error
//! value.  For the two limit fields a present `0` means "explicitly
//! unlimited", which is distinct from absence ("the platform has no such
//! limit to report").

use vstd::prelude::*;

pub mod dummy;
pub mod freebsd;
pub mod linux;
pub mod macos;
pub mod openbsd;
pub mod windows;

/// Create a snapshot of the running process' [`Metrics`] with the probe for
/// the platform this build targets.
pub use linux::collect;

verus! {

/// One snapshot of the standard Prometheus process metrics.
///
/// CPU time is carried in integer nanoseconds; an exporter divides by 1e9
/// when it publishes the conventional seconds-valued gauge.
#[derive(Clone, Copy, Debug)]
pub struct Metrics {
    /// Total user and system CPU time spent, in nanoseconds.
    pub cpu_nanos_total: Option<u64>,
    /// Number of open file descriptors.
    pub open_fds: Option<u64>,
    /// Maximum number of open file descriptors.  0 indicates 'unlimited'.
    pub max_fds: Option<u64>,
    /// Virtual memory size in bytes.
    pub virtual_memory_bytes: Option<u64>,
    /// Maximum amount of virtual memory available in bytes.
    /// 0 indicates 'unlimited'.
    pub virtual_memory_max_bytes: Option<u64>,
    /// Resident memory size in bytes.
    pub resident_memory_bytes: Option<u64>,
    /// Start time of the process since the unix epoch in seconds.
    pub start_time_seconds: Option<u64>,
    /// Number of OS threads in the process.
    pub threads: Option<u64>,
}

impl Metrics {
    /// True when no field is populated, the worst-case result of a probe.
    pub open spec fn all_absent(self) -> bool {
        &&& self.cpu_nanos_total is None
        &&& self.open_fds is None
        &&& self.max_fds is None
        &&& self.virtual_memory_bytes is None
        &&& self.virtual_memory_max_bytes is None
        &&& self.resident_memory_bytes is None
        &&& self.start_time_seconds is None
        &&& self.threads is None
    }

    /// The all-absent snapshot.
    pub open spec fn empty_spec() -> Metrics {
        Metrics {
            cpu_nanos_total: None,
            open_fds: None,
            max_fds: None,
            virtual_memory_bytes: None,
            virtual_memory_max_bytes: None,
            resident_memory_bytes: None,
            start_time_seconds: None,
            threads: None,
        }
    }

    /// An empty snapshot, with every field absent.
    pub fn empty() -> (m: Metrics)
        ensures
            m == Metrics::empty_spec(),
            m.all_absent(),
    {
        Metrics {
            cpu_nanos_total: None,
            open_fds: None,
            max_fds: None,
            virtual_memory_bytes: None,
            virtual_memory_max_bytes: None,
            resident_memory_bytes: None,
            start_time_seconds: None,
            threads: None,
        }
    }
}

impl Default for Metrics {
    /// The default snapshot populates no metric.
    fn default() -> (m: Metrics)
        ensures
            m == Metrics::empty_spec(),
    {
        Metrics::empty()
    }
}

/// How a kernel soft resource limit maps to a metric value: an explicitly
/// unbounded limit is reported as `0`, any concrete limit as itself.
pub open spec fn spec_translate_rlim(rlim: u64, unlimited: u64) -> u64 {
    if rlim == unlimited {
        0
    } else {
        rlim
    }
}

/// Map a raw soft limit to its metric value, where `unlimited` is the
/// platform's sentinel for an unbounded limit (`RLIM_INFINITY`).
pub fn translate_rlim(rlim: u64, unlimited: u64) -> (r: u64)
    ensures
        r == spec_translate_rlim(rlim, unlimited),
{
    if rlim == unlimited {
        0
    } else {
        rlim
    }
}

/// User and system CPU time as a pair of second/microsecond readings, the
/// shape `getrusage` reports them in.
#[derive(Clone, Copy, Debug)]
pub struct CpuTimes {
    pub user_sec: i64,
    pub user_usec: i64,
    pub system_sec: i64,
    pub system_usec: i64,
}

/// Total CPU time of a `getrusage` reading in nanoseconds.  A reading with a
/// negative component, or one whose total does not fit the nanosecond
/// representation, converts to nothing: the field degrades to absent.
pub open spec fn spec_rusage_cpu_nanos(t: CpuTimes) -> Option<u64> {
    if t.user_sec < 0 || t.user_usec < 0 || t.system_sec < 0 || t.system_usec < 0 {
        None
    } else {
        let total = (t.user_sec + t.system_sec) * 1_000_000_000 + (t.user_usec + t.system_usec)
            * 1_000;
        if total <= u64::MAX {
            Some(total as u64)
        } else {
            None
        }
    }
}

/// Convert a `getrusage` CPU reading to total nanoseconds.
pub fn rusage_cpu_nanos(t: CpuTimes) -> (r: Option<u64>)
    ensures
        r == spec_rusage_cpu_nanos(t),
{
    if t.user_sec < 0 || t.user_usec < 0 || t.system_sec < 0 || t.system_usec < 0 {
        return None;
    }
    let secs: u128 = t.user_sec as u128 + t.system_sec as u128;
    let usecs: u128 = t.user_usec as u128 + t.system_usec as u128;
    let total: u128 = secs * 1_000_000_000 + usecs * 1_000;
    if total <= u64::MAX as u128 {
        Some(total as u64)
    } else {
        None
    }
}

/// Resident memory in bytes from a page count and the page size.  A product
/// beyond the byte representation converts to nothing.
pub open spec fn spec_pages_to_bytes(pages: u64, page_size: u64) -> Option<u64> {
    if pages * page_size <= u64::MAX {
        Some((pages * page_size) as u64)
    } else {
        None
    }
}

/// Scale a resident page count by the system page size.
pub fn pages_to_bytes(pages: u64, page_size: u64) -> (r: Option<u64>)
    ensures
        r == spec_pages_to_bytes(pages, page_size),
{
    pages.checked_mul(page_size)
}

} // verus!
