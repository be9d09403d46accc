//! The null probe, the explicit opt-in fallback for platforms without a real
//! probe: it samples nothing and returns an empty snapshot.

use vstd::prelude::*;

use super::Metrics;

verus! {

/// Collect metrics on a platform without a probe: every field is absent.
pub fn collect() -> (m: Metrics)
    ensures
        m == Metrics::empty_spec(),
        m.all_absent(),
{
    Metrics::default()
}

} // verus!
