//! The traffic-class ladder: bursts of a window of operations of one class,
//! timed from the first submit to the end of the burst and to the moment
//! all completions are visible.

use vstd::prelude::*;

use crate::common::CompletionOutcome;
use crate::config::TrafficClass;
use crate::overlap::optional_stats_of;
use crate::stats::{
    is_stats_of, optional_stats, ops_per_second, spec_ops_per_second, stats_from_values,
    LatencyStats,
};
use crate::submit::{cycles_to_ns, spec_cycles_to_ns};

verus! {

/// The summary of one class at one window size.
#[derive(Clone, Debug, PartialEq, Eq)]
pub struct TrafficClassLadderResult {
    pub benchmark: String,
    pub traffic_class: String,
    pub operation_size: usize,
    pub window: usize,
    pub submit_tsc_ticks: LatencyStats,
    pub submit_ns: LatencyStats,
    pub completion_visible_tsc_ticks: Option<LatencyStats>,
    pub completion_visible_ns: Option<LatencyStats>,
    pub completed: Option<LatencyStats>,
    pub missing: Option<LatencyStats>,
    pub errors: Option<LatencyStats>,
    pub ops_per_sec: LatencyStats,
}

/// The name under which ladder results are reported.
pub open spec fn ladder_benchmark_name() -> Seq<char> {
    "traffic_class_ladder"@
}

/// The per-iteration samples of one class at one window size. Submit-only
/// iterations have no completions to count, so only the submit time and
/// rate are sampled for them.
pub struct TrafficLadderAccumulator {
    pub submit_tsc: Vec<u64>,
    pub submit_ns: Vec<u64>,
    pub completion_tsc: Vec<u64>,
    pub completion_ns: Vec<u64>,
    pub completed_counts: Vec<u64>,
    pub missing_counts: Vec<u64>,
    pub error_counts: Vec<u64>,
    pub ops_per_sec: Vec<u64>,
}

impl TrafficLadderAccumulator {
    pub open spec fn wf(&self) -> bool {
        &&& self.submit_ns@.len() == self.submit_tsc@.len()
        &&& self.ops_per_sec@.len() == self.submit_tsc@.len()
        &&& self.completion_ns@.len() == self.completion_tsc@.len()
        &&& self.completed_counts@.len() == self.completion_tsc@.len()
        &&& self.missing_counts@.len() == self.completion_tsc@.len()
        &&& self.error_counts@.len() == self.completion_tsc@.len()
    }

    pub fn new(iterations: usize) -> (a: Self)
        ensures
            a.wf(),
            a.submit_tsc@.len() == 0,
            a.completion_tsc@.len() == 0,
    {
        TrafficLadderAccumulator {
            submit_tsc: Vec::with_capacity(iterations),
            submit_ns: Vec::with_capacity(iterations),
            completion_tsc: Vec::new(),
            completion_ns: Vec::new(),
            completed_counts: Vec::new(),
            missing_counts: Vec::new(),
            error_counts: Vec::new(),
            ops_per_sec: Vec::with_capacity(iterations),
        }
    }

    /// A submit-only burst of `window` descriptors that took
    /// `submit_ticks`.
    pub fn record_submit_only(&mut self, window: usize, submit_ticks: u64, tsc_freq: u64)
        requires
            old(self).wf(),
            tsc_freq != 0,
        ensures
            final(self).wf(),
            final(self).submit_tsc@ == old(self).submit_tsc@.push(submit_ticks),
            final(self).submit_ns@ == old(self).submit_ns@.push(
                spec_cycles_to_ns(submit_ticks, tsc_freq),
            ),
            final(self).ops_per_sec@ == old(self).ops_per_sec@.push(
                spec_ops_per_second(window as u64, submit_ticks, tsc_freq),
            ),
            final(self).completion_tsc@ == old(self).completion_tsc@,
            final(self).completed_counts@ == old(self).completed_counts@,
            final(self).missing_counts@ == old(self).missing_counts@,
            final(self).error_counts@ == old(self).error_counts@,
    {
        self.submit_tsc.push(submit_ticks);
        self.submit_ns.push(cycles_to_ns(submit_ticks, tsc_freq));
        self.ops_per_sec.push(ops_per_second(window as u64, submit_ticks, tsc_freq));
    }

    /// A burst of `window` operations submitted from `t0` to `t1`, all of
    /// it seen complete (or given up) at `t2`, with `outcome`.
    pub fn record_completed(
        &mut self,
        window: usize,
        t0: u64,
        t1: u64,
        t2: u64,
        outcome: CompletionOutcome,
        tsc_freq: u64,
    )
        requires
            old(self).wf(),
            t0 <= t1 <= t2,
            outcome.completed <= window,
            tsc_freq != 0,
        ensures
            final(self).wf(),
            final(self).submit_tsc@ == old(self).submit_tsc@.push((t1 - t0) as u64),
            final(self).submit_ns@ == old(self).submit_ns@.push(
                spec_cycles_to_ns((t1 - t0) as u64, tsc_freq),
            ),
            final(self).completion_tsc@ == old(self).completion_tsc@.push((t2 - t1) as u64),
            final(self).completion_ns@ == old(self).completion_ns@.push(
                spec_cycles_to_ns((t2 - t1) as u64, tsc_freq),
            ),
            final(self).completed_counts@ == old(self).completed_counts@.push(
                outcome.completed as u64,
            ),
            final(self).missing_counts@ == old(self).missing_counts@.push(
                (window - outcome.completed) as u64,
            ),
            final(self).error_counts@ == old(self).error_counts@.push(outcome.errors as u64),
            final(self).ops_per_sec@ == old(self).ops_per_sec@.push(
                spec_ops_per_second(window as u64, (t2 - t0) as u64, tsc_freq),
            ),
    {
        let submit_ticks = t1 - t0;
        let complete_ticks = t2 - t1;
        self.submit_tsc.push(submit_ticks);
        self.submit_ns.push(cycles_to_ns(submit_ticks, tsc_freq));
        self.completion_tsc.push(complete_ticks);
        self.completion_ns.push(cycles_to_ns(complete_ticks, tsc_freq));
        self.completed_counts.push(outcome.completed as u64);
        self.missing_counts.push((window - outcome.completed) as u64);
        self.error_counts.push(outcome.errors as u64);
        self.ops_per_sec.push(ops_per_second(window as u64, t2 - t0, tsc_freq));
    }

    /// The result for `traffic_class` at `window`.
    pub fn into_result(self, traffic_class: TrafficClass, window: usize) -> (r:
        TrafficClassLadderResult)
        requires
            self.wf(),
            self.submit_tsc@.len() > 0,
        ensures
            r.benchmark@ == ladder_benchmark_name(),
            r.traffic_class@ == traffic_class.spec_name(),
            r.operation_size == traffic_class.spec_operation().spec_payload_size(),
            r.window == window,
            is_stats_of(r.submit_tsc_ticks, self.submit_tsc@),
            is_stats_of(r.submit_ns, self.submit_ns@),
            optional_stats_of(r.completion_visible_tsc_ticks, self.completion_tsc@),
            optional_stats_of(r.completion_visible_ns, self.completion_ns@),
            optional_stats_of(r.completed, self.completed_counts@),
            optional_stats_of(r.missing, self.missing_counts@),
            optional_stats_of(r.errors, self.error_counts@),
            is_stats_of(r.ops_per_sec, self.ops_per_sec@),
    {
        TrafficClassLadderResult {
            benchmark: String::from_str("traffic_class_ladder"),
            traffic_class: String::from_str(traffic_class.as_str()),
            operation_size: traffic_class.operation_size(),
            window,
            submit_tsc_ticks: stats_from_values(self.submit_tsc),
            submit_ns: stats_from_values(self.submit_ns),
            completion_visible_tsc_ticks: optional_stats(self.completion_tsc),
            completion_visible_ns: optional_stats(self.completion_ns),
            completed: optional_stats(self.completed_counts),
            missing: optional_stats(self.missing_counts),
            errors: optional_stats(self.error_counts),
            ops_per_sec: stats_from_values(self.ops_per_sec),
        }
    }
}

} // verus!
