//! The submit-admission probe: blind bursts of distinct descriptors, then a
//! count of how many completed.

use vstd::prelude::*;

use crate::common::CompletionOutcome;
use crate::stats::{is_stats_of, stats_from_values, LatencyStats};
use crate::submit::{cycles_to_ns, spec_cycles_to_ns};

verus! {

/// How long the probe waits for a burst to complete before counting what
/// is there.
pub const ADMISSION_COMPLETION_TIMEOUT_NS: u128 = 50_000;

/// The summary of one burst size over all iterations.
#[derive(Clone, Debug, PartialEq, Eq)]
pub struct AdmissionResult {
    pub benchmark: String,
    pub burst_size: usize,
    pub submitted: usize,
    pub completed: LatencyStats,
    pub missing: LatencyStats,
    pub errors: LatencyStats,
    pub submit_tsc_ticks: LatencyStats,
    pub submit_ns: LatencyStats,
}

/// The name under which admission results are reported.
pub open spec fn admission_benchmark_name() -> Seq<char> {
    "submit_admission_distinct"@
}

/// The per-iteration samples of one burst size.
pub struct AdmissionAccumulator {
    pub completed_counts: Vec<u64>,
    pub missing_counts: Vec<u64>,
    pub error_counts: Vec<u64>,
    pub submit_tsc: Vec<u64>,
    pub submit_ns: Vec<u64>,
}

impl AdmissionAccumulator {
    /// One entry per iteration in every list.
    pub open spec fn wf(&self) -> bool {
        &&& self.missing_counts@.len() == self.completed_counts@.len()
        &&& self.error_counts@.len() == self.completed_counts@.len()
        &&& self.submit_tsc@.len() == self.completed_counts@.len()
        &&& self.submit_ns@.len() == self.completed_counts@.len()
    }

    pub fn new(iterations: usize) -> (a: Self)
        ensures
            a.wf(),
            a.completed_counts@.len() == 0,
    {
        AdmissionAccumulator {
            completed_counts: Vec::with_capacity(iterations),
            missing_counts: Vec::with_capacity(iterations),
            error_counts: Vec::with_capacity(iterations),
            submit_tsc: Vec::with_capacity(iterations),
            submit_ns: Vec::with_capacity(iterations),
        }
    }

    /// One iteration: a burst of `burst` submits took `tsc_ticks` and
    /// ended with `outcome`.
    pub fn record_iteration(
        &mut self,
        burst: usize,
        outcome: CompletionOutcome,
        tsc_ticks: u64,
        tsc_freq: u64,
    )
        requires
            old(self).wf(),
            outcome.completed <= burst,
            tsc_freq != 0,
        ensures
            final(self).wf(),
            final(self).completed_counts@ == old(self).completed_counts@.push(
                outcome.completed as u64,
            ),
            final(self).missing_counts@ == old(self).missing_counts@.push(
                (burst - outcome.completed) as u64,
            ),
            final(self).error_counts@ == old(self).error_counts@.push(outcome.errors as u64),
            final(self).submit_tsc@ == old(self).submit_tsc@.push(tsc_ticks),
            final(self).submit_ns@ == old(self).submit_ns@.push(
                spec_cycles_to_ns(tsc_ticks, tsc_freq),
            ),
    {
        self.completed_counts.push(outcome.completed as u64);
        self.missing_counts.push((burst - outcome.completed) as u64);
        self.error_counts.push(outcome.errors as u64);
        self.submit_tsc.push(tsc_ticks);
        self.submit_ns.push(cycles_to_ns(tsc_ticks, tsc_freq));
    }

    /// The result for bursts of `burst` descriptors.
    pub fn into_result(self, burst: usize) -> (r: AdmissionResult)
        requires
            self.wf(),
            self.completed_counts@.len() > 0,
        ensures
            r.benchmark@ == admission_benchmark_name(),
            r.burst_size == burst,
            r.submitted == burst,
            is_stats_of(r.completed, self.completed_counts@),
            is_stats_of(r.missing, self.missing_counts@),
            is_stats_of(r.errors, self.error_counts@),
            is_stats_of(r.submit_tsc_ticks, self.submit_tsc@),
            is_stats_of(r.submit_ns, self.submit_ns@),
    {
        AdmissionResult {
            benchmark: String::from_str("submit_admission_distinct"),
            burst_size: burst,
            submitted: burst,
            completed: stats_from_values(self.completed_counts),
            missing: stats_from_values(self.missing_counts),
            errors: stats_from_values(self.error_counts),
            submit_tsc_ticks: stats_from_values(self.submit_tsc),
            submit_ns: stats_from_values(self.submit_ns),
        }
    }
}

} // verus!
