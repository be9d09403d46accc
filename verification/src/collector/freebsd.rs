//! The FreeBSD probe policy.
//!
//! The raw readings come from `getrusage(RUSAGE_SELF)`, `getrlimit`, the
//! `kern.proc.pid` sysctl (`kinfo_proc`), `sysconf(_SC_PAGESIZE)` and a scan
//! of `/dev/fd`.  Those are raw libc calls and directory I/O, made outside
//! the library, which receives the readings as plain values.  The policy
//! verified here: CPU time from the rusage pair, both soft limits with the
//! unlimited-to-0 mapping, virtual size and page-scaled resident size from
//! `kinfo_proc`, start time and thread count only when non-negative, and the
//! descriptor count as handed in.

use vstd::prelude::*;

use super::CpuTimes;
use super::Metrics;
use super::spec_pages_to_bytes;
use super::spec_rusage_cpu_nanos;
use super::spec_translate_rlim;
use super::pages_to_bytes;
use super::rusage_cpu_nanos;
use super::translate_rlim;

verus! {

/// The fields of the `kinfo_proc` record that the probe reads: virtual size
/// in bytes, resident size in pages, start time in seconds since the unix
/// epoch, and the thread count (the latter two signed, as the kernel
/// declares them).
#[derive(Clone, Copy, Debug)]
pub struct FreeBsdProcInfo {
    pub virtual_size: u64,
    pub resident_pages: u64,
    pub start_sec: i64,
    pub num_threads: i64,
}

/// One round of raw FreeBSD readings, each absent when its call failed.
/// `unlimited` is the platform's `RLIM_INFINITY`, `page_size` the value of
/// `sysconf(_SC_PAGESIZE)`.
#[derive(Clone, Copy, Debug)]
pub struct FreeBsdReadings {
    pub cpu: Option<CpuTimes>,
    pub address_space_soft: Option<u64>,
    pub open_files_soft: Option<u64>,
    pub unlimited: u64,
    pub proc_info: Option<FreeBsdProcInfo>,
    pub page_size: u64,
    pub open_fds: Option<u64>,
}

/// The snapshot the FreeBSD probe builds from one round of readings.
pub open spec fn spec_snapshot(rd: FreeBsdReadings) -> Metrics {
    Metrics {
        cpu_nanos_total: match rd.cpu {
            Some(t) => spec_rusage_cpu_nanos(t),
            None => None,
        },
        open_fds: rd.open_fds,
        max_fds: match rd.open_files_soft {
            Some(soft) => Some(spec_translate_rlim(soft, rd.unlimited)),
            None => None,
        },
        virtual_memory_bytes: match rd.proc_info {
            Some(p) => Some(p.virtual_size),
            None => None,
        },
        virtual_memory_max_bytes: match rd.address_space_soft {
            Some(soft) => Some(spec_translate_rlim(soft, rd.unlimited)),
            None => None,
        },
        resident_memory_bytes: match rd.proc_info {
            Some(p) => spec_pages_to_bytes(p.resident_pages, rd.page_size),
            None => None,
        },
        start_time_seconds: match rd.proc_info {
            Some(p) => if p.start_sec >= 0 {
                Some(p.start_sec as u64)
            } else {
                None
            },
            None => None,
        },
        threads: match rd.proc_info {
            Some(p) => if p.num_threads >= 0 {
                Some(p.num_threads as u64)
            } else {
                None
            },
            None => None,
        },
    }
}

/// Build the FreeBSD snapshot from one round of raw readings.
pub fn collect(rd: FreeBsdReadings) -> (m: Metrics)
    ensures
        m == spec_snapshot(rd),
{
    let mut m = Metrics::empty();
    if let Some(t) = rd.cpu {
        m.cpu_nanos_total = rusage_cpu_nanos(t);
    }
    if let Some(soft) = rd.address_space_soft {
        m.virtual_memory_max_bytes = Some(translate_rlim(soft, rd.unlimited));
    }
    if let Some(soft) = rd.open_files_soft {
        m.max_fds = Some(translate_rlim(soft, rd.unlimited));
    }
    if let Some(p) = rd.proc_info {
        m.virtual_memory_bytes = Some(p.virtual_size);
        m.resident_memory_bytes = pages_to_bytes(p.resident_pages, rd.page_size);
        if p.start_sec >= 0 {
            m.start_time_seconds = Some(p.start_sec as u64);
        }
        if p.num_threads >= 0 {
            m.threads = Some(p.num_threads as u64);
        }
    }
    m.open_fds = rd.open_fds;
    m
}

} // verus!
