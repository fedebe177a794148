//! Process-time measurement. The harness times CPU time rather than
//! wall-clock time, so unrelated system load does not leak into the
//! numbers. What the clock reads depends on the machine, so nothing is
//! stated of the values; every consumer is verified for every reading.

use vstd::prelude::*;

verus! {

/// cpu_time::ProcessTime, the process-clock timestamp a timed phase
/// starts from.
#[verifier::external_type_specification]
#[verifier::external_body]
pub struct ExProcessTime(cpu_time::ProcessTime);

/// Relies on cpu_time::ProcessTime::now: the process CPU clock's current
/// reading. It needs that clock, which this target provides.
#[verifier::external_body]
pub(crate) fn process_time_now() -> cpu_time::ProcessTime {
    cpu_time::ProcessTime::now()
}

/// Relies on cpu_time::ProcessTime::elapsed: the CPU time spent since
/// the timestamp, non-negative because the process clock is monotone,
/// here truncated to whole nanoseconds in a `u64`.
#[verifier::external_body]
pub(crate) fn elapsed_nanos(t: &cpu_time::ProcessTime) -> u64 {
    t.elapsed().as_nanos() as u64
}

} // verus!
