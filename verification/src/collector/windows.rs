//! The Windows probe policy.
//!
//! The raw readings come from the Win32 process queries (`GetProcessTimes`,
//! `GetProcessMemoryInfo`, `GetProcessHandleCount`); those calls exist only
//! on a Windows build and are made outside the library, which receives the
//! readings as plain values.  Everything after the calls is verified here:
//! the 100-nanosecond `FILETIME` unit conversions, the 1601-to-unix epoch
//! shift, and which fields the platform populates.  `threads` and
//! `virtual_memory_max_bytes` have no reliable per-process source at this
//! layer and stay absent; `max_fds` is the fixed platform ceiling, since
//! Windows has no per-process handle limit comparable to `RLIMIT_NOFILE`.

use vstd::prelude::*;

use super::Metrics;

verus! {

/// 100-nanosecond intervals between 1601-01-01 (the `FILETIME` epoch) and
/// 1970-01-01 (the unix epoch).
pub const FILETIME_UNIX_EPOCH_OFFSET: u64 = 116444736000000000;

/// The fixed per-process handle ceiling reported as `max_fds`.
pub const WINDOWS_MAX_FDS: u64 = 16 * 1024 * 1024;

/// A `FILETIME` value: a 64-bit count of 100-nanosecond intervals, split
/// into two 32-bit halves as the Win32 structure carries it.
#[derive(Clone, Copy, Debug)]
pub struct Filetime {
    pub low_date_time: u32,
    pub high_date_time: u32,
}

/// The 64-bit count of 100-nanosecond intervals held by a `FILETIME`.
pub open spec fn spec_filetime_value(ft: Filetime) -> int {
    ft.high_date_time * 0x1_0000_0000 + ft.low_date_time
}

/// Reassemble the 64-bit interval count from the two halves.
pub fn filetime_value(ft: Filetime) -> (r: u64)
    ensures
        r == spec_filetime_value(ft),
{
    (ft.high_date_time as u64) * 0x1_0000_0000 + (ft.low_date_time as u64)
}

/// A `FILETIME` duration in nanoseconds, absent when the count does not fit
/// the nanosecond representation.
pub open spec fn spec_filetime_nanos(ft: Filetime) -> Option<u64> {
    if spec_filetime_value(ft) * 100 <= u64::MAX {
        Some((spec_filetime_value(ft) * 100) as u64)
    } else {
        None
    }
}

/// Convert a `FILETIME` duration (100-nanosecond units) to nanoseconds.
pub fn filetime_to_nanoseconds(ft: Filetime) -> (r: Option<u64>)
    ensures
        r == spec_filetime_nanos(ft),
{
    filetime_value(ft).checked_mul(100)
}

/// A `FILETIME` point in time as seconds since the unix epoch: shift from
/// the 1601 epoch, then truncate the 100-nanosecond units to whole seconds.
/// A point before the unix epoch converts to nothing.
pub open spec fn spec_filetime_unix_seconds(ft: Filetime) -> Option<u64> {
    if spec_filetime_value(ft) < FILETIME_UNIX_EPOCH_OFFSET {
        None
    } else {
        Some(((spec_filetime_value(ft) - FILETIME_UNIX_EPOCH_OFFSET) / 10_000_000) as u64)
    }
}

/// Convert a `FILETIME` point in time to seconds since the unix epoch.
pub fn filetime_to_unix_epoch_in_seconds(ft: Filetime) -> (r: Option<u64>)
    ensures
        r == spec_filetime_unix_seconds(ft),
{
    let v = filetime_value(ft);
    if v < FILETIME_UNIX_EPOCH_OFFSET {
        None
    } else {
        Some((v - FILETIME_UNIX_EPOCH_OFFSET) / 10_000_000)
    }
}

/// Total kernel plus user CPU time in nanoseconds, absent when the sum does
/// not fit the nanosecond representation.
pub open spec fn spec_windows_cpu_nanos(kernel: Filetime, user: Filetime) -> Option<u64> {
    let total = (spec_filetime_value(kernel) + spec_filetime_value(user)) * 100;
    if total <= u64::MAX {
        Some(total as u64)
    } else {
        None
    }
}

/// Sum the kernel and user `FILETIME` durations into nanoseconds.
pub fn windows_cpu_nanos(kernel: Filetime, user: Filetime) -> (r: Option<u64>)
    ensures
        r == spec_windows_cpu_nanos(kernel, user),
{
    let total: u128 = (filetime_value(kernel) as u128 + filetime_value(user) as u128) * 100;
    if total <= u64::MAX as u128 {
        Some(total as u64)
    } else {
        None
    }
}

/// The creation, kernel and user times of `GetProcessTimes`.
#[derive(Clone, Copy, Debug)]
pub struct ProcessTimes {
    pub creation: Filetime,
    pub kernel: Filetime,
    pub user: Filetime,
}

/// The two memory figures of `GetProcessMemoryInfo`: commit charge and
/// working set, both in bytes.
#[derive(Clone, Copy, Debug)]
pub struct MemoryCounters {
    pub private_usage: u64,
    pub working_set_size: u64,
}

/// One round of raw Windows readings, each absent when its query failed.
#[derive(Clone, Copy, Debug)]
pub struct WindowsReadings {
    pub times: Option<ProcessTimes>,
    pub memory: Option<MemoryCounters>,
    pub handle_count: Option<u32>,
}

/// The snapshot the Windows probe builds from one round of readings.
pub open spec fn spec_snapshot(rd: WindowsReadings) -> Metrics {
    Metrics {
        cpu_nanos_total: match rd.times {
            Some(t) => spec_windows_cpu_nanos(t.kernel, t.user),
            None => None,
        },
        start_time_seconds: match rd.times {
            Some(t) => spec_filetime_unix_seconds(t.creation),
            None => None,
        },
        open_fds: match rd.handle_count {
            Some(h) => Some(h as u64),
            None => None,
        },
        max_fds: Some(WINDOWS_MAX_FDS),
        virtual_memory_bytes: match rd.memory {
            Some(c) => Some(c.private_usage),
            None => None,
        },
        virtual_memory_max_bytes: None,
        resident_memory_bytes: match rd.memory {
            Some(c) => Some(c.working_set_size),
            None => None,
        },
        threads: None,
    }
}

/// Build the Windows snapshot from one round of raw readings.
pub fn collect(rd: WindowsReadings) -> (m: Metrics)
    ensures
        m == spec_snapshot(rd),
        m.threads is None,
        m.virtual_memory_max_bytes is None,
        m.max_fds == Some(WINDOWS_MAX_FDS),
{
    let mut m = Metrics::empty();
    if let Some(t) = rd.times {
        m.cpu_nanos_total = windows_cpu_nanos(t.kernel, t.user);
        m.start_time_seconds = filetime_to_unix_epoch_in_seconds(t.creation);
    }
    if let Some(c) = rd.memory {
        m.virtual_memory_bytes = Some(c.private_usage);
        m.resident_memory_bytes = Some(c.working_set_size);
    }
    if let Some(h) = rd.handle_count {
        m.open_fds = Some(h as u64);
    }
    m.max_fds = Some(WINDOWS_MAX_FDS);
    m
}

/// On Windows the probe never reports `threads` or a virtual memory limit,
/// and always reports the fixed handle ceiling as `max_fds` — whatever the
/// readings were.
pub proof fn windows_fixed_fields(rd: WindowsReadings)
    ensures
        spec_snapshot(rd).threads is None,
        spec_snapshot(rd).virtual_memory_max_bytes is None,
        spec_snapshot(rd).max_fds == Some(WINDOWS_MAX_FDS),
{
}

} // verus!
