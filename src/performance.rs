use vstd::prelude::*;

verus! {

/// Measures how long an operation takes; times are milliseconds on the
/// caller's monotonic clock.
pub struct PerformanceTimer {
    pub operation: String,
    pub start_ms: u64,
}

impl PerformanceTimer {
    pub fn new(operation: String, now_ms: u64) -> (r: PerformanceTimer)
        ensures
            r.operation == operation,
            r.start_ms == now_ms,
    {
        PerformanceTimer { operation, start_ms: now_ms }
    }
}

} // verus!
