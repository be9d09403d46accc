//! Exact expected values for the unit conversions and the per-field
//! policies of the synthetic-reading probes.

use metrics_process::collector::linux::{
    cpu_ticks_to_nanos, start_time_seconds, LimitSetting, LimitsReading, LinuxReadings,
    StatReading,
};
use metrics_process::collector::windows::{
    filetime_to_nanoseconds, filetime_to_unix_epoch_in_seconds, Filetime, MemoryCounters,
    ProcessTimes, WindowsReadings, FILETIME_UNIX_EPOCH_OFFSET, WINDOWS_MAX_FDS,
};
use metrics_process::collector::{
    freebsd, linux, macos, openbsd, rusage_cpu_nanos, translate_rlim, windows, CpuTimes,
};
use metrics_process::collector::freebsd::{FreeBsdProcInfo, FreeBsdReadings};
use metrics_process::collector::macos::{MacReadings, MacResourceUsage, MacTaskInfo};
use metrics_process::collector::openbsd::{OpenBsdProcInfo, OpenBsdReadings};

fn filetime_of(value: u64) -> Filetime {
    Filetime {
        low_date_time: (value & 0xFFFF_FFFF) as u32,
        high_date_time: (value >> 32) as u32,
    }
}

#[test]
fn windows_filetime_pair_converts_to_expected_seconds() {
    // Kernel and user time of 100 intervals of 100ns each: 20_000ns in all,
    // which an exporter publishes as 0.00002 seconds.
    let rd = WindowsReadings {
        times: Some(ProcessTimes {
            creation: filetime_of(FILETIME_UNIX_EPOCH_OFFSET),
            kernel: filetime_of(100),
            user: filetime_of(100),
        }),
        memory: None,
        handle_count: None,
    };
    let m = windows::collect(rd);
    assert_eq!(m.cpu_nanos_total, Some(20_000));
    assert_eq!(m.cpu_nanos_total.unwrap() as f64 / 1e9, 0.00002);
    // A creation time equal to the epoch offset is the unix epoch itself.
    assert_eq!(m.start_time_seconds, Some(0));
}

#[test]
fn windows_filetime_conversions_exact() {
    // 3 seconds and 250 milliseconds in 100ns units.
    let ft = filetime_of(32_500_000);
    assert_eq!(filetime_to_nanoseconds(ft), Some(3_250_000_000));
    // One hour past the unix epoch, with a truncated fraction.
    let ft = filetime_of(FILETIME_UNIX_EPOCH_OFFSET + 3600 * 10_000_000 + 9_999_999);
    assert_eq!(filetime_to_unix_epoch_in_seconds(ft), Some(3600));
    // Before the unix epoch there is no unix timestamp.
    let ft = filetime_of(FILETIME_UNIX_EPOCH_OFFSET - 1);
    assert_eq!(filetime_to_unix_epoch_in_seconds(ft), None);
    // A count too large for the nanosecond representation is absent.
    let ft = filetime_of(u64::MAX / 100 + 1);
    assert_eq!(filetime_to_nanoseconds(ft), None);
}

#[test]
fn windows_policy_fixed_fields() {
    let rd = WindowsReadings {
        times: None,
        memory: Some(MemoryCounters {
            private_usage: 1_000_000,
            working_set_size: 500_000,
        }),
        handle_count: Some(42),
    };
    let m = windows::collect(rd);
    assert_eq!(m.max_fds, Some(WINDOWS_MAX_FDS));
    assert_eq!(m.max_fds, Some(16_777_216));
    assert_eq!(m.threads, None);
    assert_eq!(m.virtual_memory_max_bytes, None);
    assert_eq!(m.open_fds, Some(42));
    assert_eq!(m.virtual_memory_bytes, Some(1_000_000));
    assert_eq!(m.resident_memory_bytes, Some(500_000));
    assert_eq!(m.cpu_nanos_total, None);
    assert_eq!(m.start_time_seconds, None);
}

#[test]
fn translate_rlim_maps_unlimited_to_zero() {
    assert_eq!(translate_rlim(u64::MAX, u64::MAX), 0);
    assert_eq!(translate_rlim(1024, u64::MAX), 1024);
    assert_eq!(translate_rlim(0, u64::MAX), 0);
}

#[test]
fn rusage_cpu_nanos_exact() {
    let t = CpuTimes {
        user_sec: 1,
        user_usec: 500_000,
        system_sec: 2,
        system_usec: 250_000,
    };
    assert_eq!(rusage_cpu_nanos(t), Some(3_750_000_000));
    let t = CpuTimes {
        user_sec: -1,
        user_usec: 0,
        system_sec: 0,
        system_usec: 0,
    };
    assert_eq!(rusage_cpu_nanos(t), None);
    let t = CpuTimes {
        user_sec: i64::MAX,
        user_usec: 0,
        system_sec: i64::MAX,
        system_usec: 0,
    };
    assert_eq!(rusage_cpu_nanos(t), None);
}

#[test]
fn linux_tick_conversions_exact() {
    // 150 ticks at 100 ticks per second: 1.5 seconds of CPU.
    assert_eq!(cpu_ticks_to_nanos(100, 50, 100), Some(1_500_000_000));
    // A zero tick frequency yields nothing rather than a division.
    assert_eq!(cpu_ticks_to_nanos(100, 50, 0), None);
    // Start tick 250 at 100 ticks per second on a boot time of 1000.
    assert_eq!(start_time_seconds(1000, 250, 100), Some(1002));
    assert_eq!(start_time_seconds(1000, 250, 0), None);
    assert_eq!(start_time_seconds(u64::MAX, 100, 100), None);
}

#[test]
fn linux_policy_from_synthetic_readings() {
    let rd = LinuxReadings {
        stat: Some(StatReading {
            utime: 100,
            stime: 50,
            num_threads: 4,
            starttime: 250,
            vsize: 2_000_000,
            rss_pages: 10,
        }),
        ticks_per_second: 100,
        boot_time: Some(1000),
        fd_count: Some(7),
        limits: Some(LimitsReading {
            max_open_files_soft: LimitSetting::Value(1024),
            max_address_space_soft: LimitSetting::Unlimited,
        }),
        page_size: 4096,
    };
    let m = linux::snapshot_from_readings(rd);
    assert_eq!(m.cpu_nanos_total, Some(1_500_000_000));
    assert_eq!(m.start_time_seconds, Some(1002));
    assert_eq!(m.virtual_memory_bytes, Some(2_000_000));
    assert_eq!(m.resident_memory_bytes, Some(40_960));
    assert_eq!(m.threads, Some(4));
    assert_eq!(m.open_fds, Some(7));
    assert_eq!(m.max_fds, Some(1024));
    assert_eq!(m.virtual_memory_max_bytes, Some(0));
}

#[test]
fn linux_policy_negative_thread_count_is_absent() {
    let rd = LinuxReadings {
        stat: Some(StatReading {
            utime: 0,
            stime: 0,
            num_threads: -1,
            starttime: 0,
            vsize: 1,
            rss_pages: 1,
        }),
        ticks_per_second: 100,
        boot_time: None,
        fd_count: None,
        limits: None,
        page_size: 4096,
    };
    let m = linux::snapshot_from_readings(rd);
    assert_eq!(m.threads, None);
    assert_eq!(m.start_time_seconds, None);
    assert_eq!(m.max_fds, None);
    assert_eq!(m.virtual_memory_max_bytes, None);
}

#[test]
fn macos_policy_from_synthetic_readings() {
    let rd = MacReadings {
        cpu: Some(MacResourceUsage {
            user_time_nanos: 1_000_000_000,
            system_time_nanos: 500_000_000,
        }),
        task: Some(MacTaskInfo {
            start_tvsec: 1_600_000_000,
            virtual_size: 4_000_000,
            resident_size: 1_000_000,
            thread_num: 3,
        }),
        open_fd_count: Some(9),
        address_space_soft: Some(u64::MAX),
        open_files_soft: Some(256),
        unlimited: u64::MAX,
    };
    let m = macos::snapshot_from_readings(rd);
    assert_eq!(m.cpu_nanos_total, Some(1_500_000_000));
    assert_eq!(m.start_time_seconds, Some(1_600_000_000));
    assert_eq!(m.virtual_memory_bytes, Some(4_000_000));
    assert_eq!(m.resident_memory_bytes, Some(1_000_000));
    assert_eq!(m.threads, Some(3));
    assert_eq!(m.open_fds, Some(9));
    assert_eq!(m.max_fds, Some(256));
    assert_eq!(m.virtual_memory_max_bytes, Some(0));
}

#[test]
fn macos_policy_fd_count_needs_task_info() {
    let rd = MacReadings {
        cpu: Some(MacResourceUsage {
            user_time_nanos: u64::MAX,
            system_time_nanos: 1,
        }),
        task: None,
        open_fd_count: Some(9),
        address_space_soft: None,
        open_files_soft: None,
        unlimited: u64::MAX,
    };
    let m = macos::snapshot_from_readings(rd);
    // The descriptor listing is sized by the task info; without it the
    // count is not taken.
    assert_eq!(m.open_fds, None);
    // An overflowing nanosecond sum degrades to absent.
    assert_eq!(m.cpu_nanos_total, None);
    assert_eq!(m.threads, None);
}

#[test]
fn freebsd_policy_from_synthetic_readings() {
    let rd = FreeBsdReadings {
        cpu: Some(CpuTimes {
            user_sec: 2,
            user_usec: 0,
            system_sec: 1,
            system_usec: 0,
        }),
        address_space_soft: Some(8_000_000),
        open_files_soft: Some(u64::MAX),
        unlimited: u64::MAX,
        proc_info: Some(FreeBsdProcInfo {
            virtual_size: 5_000_000,
            resident_pages: 100,
            start_sec: 1_600_000_000,
            num_threads: 2,
        }),
        page_size: 4096,
        open_fds: Some(11),
    };
    let m = freebsd::collect(rd);
    assert_eq!(m.cpu_nanos_total, Some(3_000_000_000));
    assert_eq!(m.virtual_memory_max_bytes, Some(8_000_000));
    assert_eq!(m.max_fds, Some(0));
    assert_eq!(m.virtual_memory_bytes, Some(5_000_000));
    assert_eq!(m.resident_memory_bytes, Some(409_600));
    assert_eq!(m.start_time_seconds, Some(1_600_000_000));
    assert_eq!(m.threads, Some(2));
    assert_eq!(m.open_fds, Some(11));
}

#[test]
fn freebsd_policy_rejects_negative_and_overflowing_readings() {
    let rd = FreeBsdReadings {
        cpu: None,
        address_space_soft: None,
        open_files_soft: None,
        unlimited: u64::MAX,
        proc_info: Some(FreeBsdProcInfo {
            virtual_size: 1,
            resident_pages: u64::MAX,
            start_sec: -5,
            num_threads: -1,
        }),
        page_size: 4096,
        open_fds: None,
    };
    let m = freebsd::collect(rd);
    assert_eq!(m.resident_memory_bytes, None);
    assert_eq!(m.start_time_seconds, None);
    assert_eq!(m.threads, None);
    assert_eq!(m.virtual_memory_bytes, Some(1));
}

#[test]
fn openbsd_policy_negative_resident_pages_is_absent() {
    let rd = OpenBsdReadings {
        cpu: None,
        open_files_soft: Some(u64::MAX),
        unlimited: u64::MAX,
        proc_info: Some(OpenBsdProcInfo {
            resident_pages: -1,
            start_sec: 1_600_000_000,
        }),
        page_size: 4096,
    };
    let m = openbsd::collect(rd);
    assert_eq!(m.resident_memory_bytes, None);
    assert_eq!(m.start_time_seconds, Some(1_600_000_000));
    assert_eq!(m.max_fds, Some(0));
    assert_eq!(m.cpu_nanos_total, None);
}
