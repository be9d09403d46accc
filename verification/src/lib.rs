//! Process metrics sampling for the current process.
//!
//! The `collector` module holds one probe per supported platform.  Each probe
//! turns raw kernel readings into a [`collector::Metrics`] snapshot whose
//! fields are independently optional: a field is present exactly when the
//! originating reading succeeded and converted cleanly.  The [`Collector`]
//! type owns the Prometheus-style gauge names that an exporter publishes the
//! snapshot under.

pub mod collector;

use vstd::prelude::*;
use vstd::string::StringExecFns;

verus! {

/// Builds `prefix` followed by `suffix` as one owned string.
fn prefixed(prefix: &str, suffix: &str) -> (r: String)
    ensures
        r@ == prefix@ + suffix@,
{
    let mut r = String::from_str(prefix);
    r.append(suffix);
    r
}

/// The gauge names for the standard Prometheus process metrics, each the
/// configured prefix followed by the conventional `process_*` name.
pub struct MetricNames {
    pub cpu_seconds_total: String,
    pub open_fds: String,
    pub max_fds: String,
    pub virtual_memory_bytes: String,
    pub virtual_memory_max_bytes: String,
    pub resident_memory_bytes: String,
    pub start_time_seconds: String,
    pub threads: String,
}

impl MetricNames {
    /// Every name is the given prefix followed by its `process_*` suffix.
    pub open spec fn wf(self, prefix: Seq<char>) -> bool {
        &&& self.cpu_seconds_total@ == prefix + "process_cpu_seconds_total"@
        &&& self.open_fds@ == prefix + "process_open_fds"@
        &&& self.max_fds@ == prefix + "process_max_fds"@
        &&& self.virtual_memory_bytes@ == prefix + "process_virtual_memory_bytes"@
        &&& self.virtual_memory_max_bytes@ == prefix + "process_virtual_memory_max_bytes"@
        &&& self.resident_memory_bytes@ == prefix + "process_resident_memory_bytes"@
        &&& self.start_time_seconds@ == prefix + "process_start_time_seconds"@
        &&& self.threads@ == prefix + "process_threads"@
    }

    /// Create the gauge names, prepending `prefix` to each standard name.
    pub fn new(prefix: &str) -> (n: MetricNames)
        ensures
            n.wf(prefix@),
    {
        MetricNames {
            cpu_seconds_total: prefixed(prefix, "process_cpu_seconds_total"),
            open_fds: prefixed(prefix, "process_open_fds"),
            max_fds: prefixed(prefix, "process_max_fds"),
            virtual_memory_bytes: prefixed(prefix, "process_virtual_memory_bytes"),
            virtual_memory_max_bytes: prefixed(prefix, "process_virtual_memory_max_bytes"),
            resident_memory_bytes: prefixed(prefix, "process_resident_memory_bytes"),
            start_time_seconds: prefixed(prefix, "process_start_time_seconds"),
            threads: prefixed(prefix, "process_threads"),
        }
    }
}

/// Prometheus style process metrics collector: it owns the gauge names and is
/// handed to an exporter together with fresh [`collector::Metrics`] snapshots.
pub struct Collector {
    pub metrics: MetricNames,
}

impl Collector {
    /// Create a new `Collector` with the provided prefix prepended to every
    /// metric key.
    pub fn new(prefix: &str) -> (c: Collector)
        ensures
            c.metrics.wf(prefix@),
    {
        Collector { metrics: MetricNames::new(prefix) }
    }

    /// Replace this collector by one whose metric keys carry `prefix`.
    /// Superseded by [`Collector::new`]; kept for callers of the older shape.
    pub fn prefix(self, prefix: &str) -> (c: Collector)
        ensures
            c.metrics.wf(prefix@),
    {
        Collector::new(prefix)
    }
}

impl Default for Collector {
    /// A collector without a prefix: the plain `process_*` names.
    fn default() -> (c: Collector)
        ensures
            c.metrics.wf(""@),
    {
        Collector::new("")
    }
}

} // verus!
