//! The OpenBSD probe policy: a deliberately reduced probe.
//!
//! The raw readings come from `getrusage(RUSAGE_SELF)`, `getrlimit`, the
//! `kern.proc` sysctl and `sysconf(_SC_PAGESIZE)`; those raw libc calls are
//! made outside the library, which receives the readings as plain values.
//! Only CPU time, the open-files limit, resident size and start time are
//! populated.  The kernel reports a zeroed virtual size for this query, has
//! no `RLIMIT_AS`, no thread count in `kinfo_proc` and no descriptor count
//! to read, so `virtual_memory_bytes`, `virtual_memory_max_bytes`,
//! `open_fds` and `threads` stay absent rather than fabricated.

use vstd::prelude::*;

use super::CpuTimes;
use super::Metrics;
use super::spec_pages_to_bytes;
use super::spec_rusage_cpu_nanos;
use super::spec_translate_rlim;
use super::pages_to_bytes;
use super::rusage_cpu_nanos;
use super::translate_rlim;

verus! {

/// The fields of the OpenBSD `kinfo_proc` record that the probe reads:
/// resident size in pages (signed, as the kernel declares it) and start
/// time in seconds since the unix epoch.
#[derive(Clone, Copy, Debug)]
pub struct OpenBsdProcInfo {
    pub resident_pages: i64,
    pub start_sec: u64,
}

/// One round of raw OpenBSD readings, each absent when its call failed.
/// `unlimited` is the platform's `RLIM_INFINITY`, `page_size` the value of
/// `sysconf(_SC_PAGESIZE)`.
#[derive(Clone, Copy, Debug)]
pub struct OpenBsdReadings {
    pub cpu: Option<CpuTimes>,
    pub open_files_soft: Option<u64>,
    pub unlimited: u64,
    pub proc_info: Option<OpenBsdProcInfo>,
    pub page_size: u64,
}

/// The snapshot the OpenBSD probe builds from one round of readings.
pub open spec fn spec_snapshot(rd: OpenBsdReadings) -> Metrics {
    Metrics {
        cpu_nanos_total: match rd.cpu {
            Some(t) => spec_rusage_cpu_nanos(t),
            None => None,
        },
        open_fds: None,
        max_fds: match rd.open_files_soft {
            Some(soft) => Some(spec_translate_rlim(soft, rd.unlimited)),
            None => None,
        },
        virtual_memory_bytes: None,
        virtual_memory_max_bytes: None,
        resident_memory_bytes: match rd.proc_info {
            Some(p) => if p.resident_pages >= 0 {
                spec_pages_to_bytes(p.resident_pages as u64, rd.page_size)
            } else {
                None
            },
            None => None,
        },
        start_time_seconds: match rd.proc_info {
            Some(p) => Some(p.start_sec),
            None => None,
        },
        threads: None,
    }
}

/// Build the OpenBSD snapshot from one round of raw readings.
pub fn collect(rd: OpenBsdReadings) -> (m: Metrics)
    ensures
        m == spec_snapshot(rd),
        m.virtual_memory_bytes is None,
        m.virtual_memory_max_bytes is None,
        m.open_fds is None,
        m.threads is None,
{
    let mut m = Metrics::empty();
    if let Some(t) = rd.cpu {
        m.cpu_nanos_total = rusage_cpu_nanos(t);
    }
    if let Some(soft) = rd.open_files_soft {
        m.max_fds = Some(translate_rlim(soft, rd.unlimited));
    }
    if let Some(p) = rd.proc_info {
        if p.resident_pages >= 0 {
            m.resident_memory_bytes = pages_to_bytes(p.resident_pages as u64, rd.page_size);
        }
        m.start_time_seconds = Some(p.start_sec);
    }
    m
}

/// On OpenBSD the probe never reports a virtual size, a virtual memory
/// limit, a descriptor count or a thread count — whatever the readings
/// were.
pub proof fn openbsd_absent_fields(rd: OpenBsdReadings)
    ensures
        spec_snapshot(rd).virtual_memory_bytes is None,
        spec_snapshot(rd).virtual_memory_max_bytes is None,
        spec_snapshot(rd).open_fds is None,
        spec_snapshot(rd).threads is None,
{
}

/// When every sub-read of the reduced probe succeeded and converted cleanly,
/// the four fields the probe covers are all present: CPU time, the
/// open-files limit, resident size and start time.
pub proof fn openbsd_present_fields(rd: OpenBsdReadings)
    requires
        rd.cpu matches Some(t) && spec_rusage_cpu_nanos(t) is Some,
        rd.open_files_soft is Some,
        rd.proc_info matches Some(p) && 0 <= p.resident_pages && p.resident_pages
            * rd.page_size <= u64::MAX,
    ensures
        spec_snapshot(rd).cpu_nanos_total is Some,
        spec_snapshot(rd).max_fds is Some,
        spec_snapshot(rd).resident_memory_bytes is Some,
        spec_snapshot(rd).start_time_seconds is Some,
{
}

} // verus!
