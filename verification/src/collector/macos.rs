//! The macOS probe policy.
//!
//! CPU time comes from the per-PID resource-usage query (`proc_pid_rusage`),
//! memory, thread and start-time figures from the task-info query
//! (`proc_pidinfo`), and the descriptor count from the PID-scoped file-info
//! listing; those Mach/libproc calls exist only on a Darwin build and are
//! made outside the library, which receives the readings as plain values.
//! The resource-usage time fields arrive already in nanoseconds, so no
//! timebase scaling is applied.  The two soft resource limits are sampled
//! live through the `rlimit` crate, with the same unlimited-to-0 mapping as
//! on Linux.

use vstd::prelude::*;

use super::Metrics;
use super::spec_translate_rlim;
use super::translate_rlim;

verus! {

/// The two time fields of the per-PID resource-usage record, in
/// nanoseconds.
#[derive(Clone, Copy, Debug)]
pub struct MacResourceUsage {
    pub user_time_nanos: u64,
    pub system_time_nanos: u64,
}

/// Total CPU time of a resource-usage reading in nanoseconds, absent when
/// the sum does not fit the representation.
pub open spec fn spec_mac_cpu_nanos(ru: MacResourceUsage) -> Option<u64> {
    if ru.user_time_nanos + ru.system_time_nanos <= u64::MAX {
        Some((ru.user_time_nanos + ru.system_time_nanos) as u64)
    } else {
        None
    }
}

/// Sum the user and system resource-usage times.
pub fn mac_cpu_nanos(ru: MacResourceUsage) -> (r: Option<u64>)
    ensures
        r == spec_mac_cpu_nanos(ru),
{
    ru.user_time_nanos.checked_add(ru.system_time_nanos)
}

/// The fields of the task-info record that the probe reads: start time in
/// seconds since the unix epoch, virtual and resident sizes in bytes, and
/// the thread count (signed, as the kernel declares it).
#[derive(Clone, Copy, Debug)]
pub struct MacTaskInfo {
    pub start_tvsec: u64,
    pub virtual_size: u64,
    pub resident_size: u64,
    pub thread_num: i32,
}

/// One round of raw macOS readings, each absent when its call failed.
/// `open_fd_count` is the length of the descriptor listing, which is only
/// taken once the task info is known; `unlimited` is the platform's
/// `RLIM_INFINITY`.
#[derive(Clone, Copy, Debug)]
pub struct MacReadings {
    pub cpu: Option<MacResourceUsage>,
    pub task: Option<MacTaskInfo>,
    pub open_fd_count: Option<u64>,
    pub address_space_soft: Option<u64>,
    pub open_files_soft: Option<u64>,
    pub unlimited: u64,
}

/// The snapshot the macOS probe builds from one round of readings.
pub open spec fn spec_snapshot(rd: MacReadings) -> Metrics {
    Metrics {
        cpu_nanos_total: match rd.cpu {
            Some(ru) => spec_mac_cpu_nanos(ru),
            None => None,
        },
        open_fds: match rd.task {
            Some(_) => rd.open_fd_count,
            None => None,
        },
        max_fds: match rd.open_files_soft {
            Some(soft) => Some(spec_translate_rlim(soft, rd.unlimited)),
            None => None,
        },
        virtual_memory_bytes: match rd.task {
            Some(t) => Some(t.virtual_size),
            None => None,
        },
        virtual_memory_max_bytes: match rd.address_space_soft {
            Some(soft) => Some(spec_translate_rlim(soft, rd.unlimited)),
            None => None,
        },
        resident_memory_bytes: match rd.task {
            Some(t) => Some(t.resident_size),
            None => None,
        },
        start_time_seconds: match rd.task {
            Some(t) => Some(t.start_tvsec),
            None => None,
        },
        threads: match rd.task {
            Some(t) => if t.thread_num >= 0 {
                Some(t.thread_num as u64)
            } else {
                None
            },
            None => None,
        },
    }
}

/// Build the macOS snapshot from one round of raw readings.
pub fn snapshot_from_readings(rd: MacReadings) -> (m: Metrics)
    ensures
        m == spec_snapshot(rd),
{
    let mut m = Metrics::empty();
    if let Some(ru) = rd.cpu {
        m.cpu_nanos_total = mac_cpu_nanos(ru);
    }
    if let Some(t) = rd.task {
        m.start_time_seconds = Some(t.start_tvsec);
        m.virtual_memory_bytes = Some(t.virtual_size);
        m.resident_memory_bytes = Some(t.resident_size);
        if t.thread_num >= 0 {
            m.threads = Some(t.thread_num as u64);
        }
        m.open_fds = rd.open_fd_count;
    }
    if let Some(soft) = rd.address_space_soft {
        m.virtual_memory_max_bytes = Some(translate_rlim(soft, rd.unlimited));
    }
    if let Some(soft) = rd.open_files_soft {
        m.max_fds = Some(translate_rlim(soft, rd.unlimited));
    }
    m
}

/// A resource whose soft limit the probe samples.
#[derive(Clone, Copy, Debug)]
pub enum LimitResource {
    OpenFiles,
    AddressSpace,
}

/// Relies on `rlimit::getrlimit`: the `(soft, hard)` limits of the given
/// resource for the calling process, or an error when the platform does not
/// support the resource.
#[verifier::external_body]
fn getrlimit_raw(res: LimitResource) -> (r: Option<(u64, u64)>) {
    let resource = match res {
        LimitResource::OpenFiles => rlimit::Resource::NOFILE,
        LimitResource::AddressSpace => rlimit::Resource::AS,
    };
    rlimit::getrlimit(resource).ok()
}

/// Relies on `rlimit::INFINITY`: the platform's sentinel for a limit that
/// is explicitly unbounded.
#[verifier::external_body]
fn rlim_unlimited() -> (r: u64) {
    rlimit::INFINITY
}

/// Collect metrics for the calling process from the readings of the Darwin
/// queries, sampling the two soft resource limits live.
///
/// Every sub-read is independent: a failed one only leaves its target
/// fields absent.  The clauses below say exactly how the handed-in readings
/// are reflected, whatever the live limit calls returned.
pub fn collect(cpu: Option<MacResourceUsage>, task: Option<MacTaskInfo>, open_fd_count: Option<
    u64,
>) -> (m: Metrics)
    ensures
        m.cpu_nanos_total == (match cpu {
            Some(ru) => spec_mac_cpu_nanos(ru),
            None => None::<u64>,
        }),
        m.start_time_seconds == (match task {
            Some(t) => Some(t.start_tvsec),
            None => None::<u64>,
        }),
        m.virtual_memory_bytes == (match task {
            Some(t) => Some(t.virtual_size),
            None => None::<u64>,
        }),
        m.resident_memory_bytes == (match task {
            Some(t) => Some(t.resident_size),
            None => None::<u64>,
        }),
        m.threads == (match task {
            Some(t) => if t.thread_num >= 0 {
                Some(t.thread_num as u64)
            } else {
                None::<u64>
            },
            None => None::<u64>,
        }),
        m.open_fds == (if task is Some {
            open_fd_count
        } else {
            None::<u64>
        }),
{
    let unlimited = rlim_unlimited();
    let address_space_soft = match getrlimit_raw(LimitResource::AddressSpace) {
        Some(pair) => Some(pair.0),
        None => None,
    };
    let open_files_soft = match getrlimit_raw(LimitResource::OpenFiles) {
        Some(pair) => Some(pair.0),
        None => None,
    };
    let rd = MacReadings {
        cpu,
        task,
        open_fd_count,
        address_space_soft,
        open_files_soft,
        unlimited,
    };
    snapshot_from_readings(rd)
}

} // verus!
