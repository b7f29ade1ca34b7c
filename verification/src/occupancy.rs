//! Occupancy-conditioned submit traces: each iteration pre-submits `K`
//! descriptors, then times every submit of the measured range one by one.
//! Statistics are left to post-processing, so the results keep every raw
//! sample.

use vstd::prelude::*;

use crate::common::CompletionOutcome;
use crate::submit::{cycles_to_ns, spec_cycles_to_ns};
use crate::trace::sat_sub;

verus! {

/// The status a sentinel drain reports when it gives up.
pub const DRAIN_SENTINEL_TIMEOUT_STATUS: u8 = 0xff;

/// Spins after which a sentinel drain gives up.
pub const DRAIN_SENTINEL_MAX_SPINS: u64 = 5_000_000_000_000;

/// The number of submits of an iteration with `k_prefill` pre-submitted
/// descriptors: one measured submit past them, or up to `trace_until` when
/// that reaches further.
pub fn submitted_count(k_prefill: usize, trace_until: Option<usize>) -> (n: usize)
    requires
        k_prefill < usize::MAX,
    ensures
        n == match trace_until {
            Some(t) => if t >= k_prefill + 1 {
                t as int
            } else {
                k_prefill + 1
            },
            None => k_prefill + 1,
        },
{
    let minimum = k_prefill + 1;
    match trace_until {
        Some(t) => if t >= minimum {
            t
        } else {
            minimum
        },
        None => minimum,
    }
}

/// What to do between two submits.
#[derive(Copy, Clone, Debug, PartialEq, Eq, Structural)]
pub enum GapAction {
    /// Spin until this many TSC ticks have passed.
    WaitTsc(u64),
    /// Run this many iterations of an opaque loop.
    BlackBox(u64),
    /// Submit straight away.
    NoGap,
}

/// The pause between two submits: a TSC-timed wait when one is set,
/// otherwise a black-box loop when one is set.
#[derive(Copy, Clone, Debug, PartialEq, Eq, Structural)]
pub struct SubmitGap {
    pub black_box_iters: u64,
    pub target_tsc_ticks: u64,
}

impl SubmitGap {
    pub fn action(self) -> (a: GapAction)
        ensures
            a == if self.target_tsc_ticks != 0 {
                GapAction::WaitTsc(self.target_tsc_ticks)
            } else if self.black_box_iters != 0 {
                GapAction::BlackBox(self.black_box_iters)
            } else {
                GapAction::NoGap
            },
    {
        if self.target_tsc_ticks != 0 {
            GapAction::WaitTsc(self.target_tsc_ticks)
        } else if self.black_box_iters != 0 {
            GapAction::BlackBox(self.black_box_iters)
        } else {
            GapAction::NoGap
        }
    }
}

/// Whether a TSC-timed wait that started at `start` is over at `now`: the
/// ticks passed, counted modulo 2^64, reach `target`.
pub fn gap_elapsed(start: u64, now: u64, target: u64) -> (done: bool)
    ensures
        done == (((now as int - start as int) % 0x1_0000_0000_0000_0000) >= target),
{
    let passed = now.wrapping_sub(start);
    assert(passed == (now as int - start as int) % 0x1_0000_0000_0000_0000) by (bit_vector)
        requires
            passed == now.wrapping_sub(start),
    ;
    passed >= target
}

/// One measured submit.
#[derive(Copy, Clone, Debug, PartialEq, Eq, Structural)]
pub struct SubmitOccupancyExtraTracePoint {
    pub iteration_index: usize,
    pub submit_index: usize,
    pub submit_tsc_ticks: u64,
    pub submit_ns: u64,
}

/// The trace point of submit `submit_index` of iteration `iteration_index`,
/// which took `submit_tsc_ticks`.
pub fn extra_trace_point(
    iteration_index: usize,
    submit_index: usize,
    submit_tsc_ticks: u64,
    tsc_freq: u64,
) -> (p: SubmitOccupancyExtraTracePoint)
    requires
        tsc_freq != 0,
    ensures
        p == (SubmitOccupancyExtraTracePoint {
            iteration_index,
            submit_index,
            submit_tsc_ticks,
            submit_ns: spec_cycles_to_ns(submit_tsc_ticks, tsc_freq),
        }),
{
    SubmitOccupancyExtraTracePoint {
        iteration_index,
        submit_index,
        submit_tsc_ticks,
        submit_ns: cycles_to_ns(submit_tsc_ticks, tsc_freq),
    }
}

/// How the pre-submitted descriptors of one iteration completed.
#[derive(Copy, Clone, Debug, PartialEq, Eq, Structural)]
pub struct SubmitOccupancyPrefillCompletionTracePoint {
    pub iteration_index: usize,
    pub prefill_submit_tsc_ticks: u64,
    pub prefill_submit_ns: u64,
    pub prefill_completion_tsc_ticks: u64,
    pub prefill_completion_ns: u64,
    pub post_submit_completion_tsc_ticks: u64,
    pub post_submit_completion_ns: u64,
    pub completed: usize,
    pub missing: usize,
    pub errors: usize,
}

/// The prefill of `count` descriptors was submitted from
/// `prefill_start_tsc` to `prefill_end_tsc`, and counting its completions
/// ended at `counted_tsc` with `outcome`: the time to submit, the time
/// from the first submit to the end of counting, and the part of it after
/// the last submit.
pub fn prefill_completion_trace_point(
    iteration_index: usize,
    prefill_start_tsc: u64,
    prefill_end_tsc: u64,
    counted_tsc: u64,
    count: usize,
    outcome: CompletionOutcome,
    tsc_freq: u64,
) -> (p: SubmitOccupancyPrefillCompletionTracePoint)
    requires
        outcome.completed <= count,
        tsc_freq != 0,
    ensures
        ({
            let submit = sat_sub(prefill_end_tsc, prefill_start_tsc);
            let completion = sat_sub(counted_tsc, prefill_start_tsc);
            let post = sat_sub(completion, submit);
            p == (SubmitOccupancyPrefillCompletionTracePoint {
                iteration_index,
                prefill_submit_tsc_ticks: submit,
                prefill_submit_ns: spec_cycles_to_ns(submit, tsc_freq),
                prefill_completion_tsc_ticks: completion,
                prefill_completion_ns: spec_cycles_to_ns(completion, tsc_freq),
                post_submit_completion_tsc_ticks: post,
                post_submit_completion_ns: spec_cycles_to_ns(post, tsc_freq),
                completed: outcome.completed,
                missing: (count - outcome.completed) as usize,
                errors: outcome.errors,
            })
        }),
{
    let prefill_submit_tsc_ticks = prefill_end_tsc.saturating_sub(prefill_start_tsc);
    let prefill_completion_tsc_ticks = counted_tsc.saturating_sub(prefill_start_tsc);
    let post_submit_completion_tsc_ticks = prefill_completion_tsc_ticks.saturating_sub(
        prefill_submit_tsc_ticks,
    );
    SubmitOccupancyPrefillCompletionTracePoint {
        iteration_index,
        prefill_submit_tsc_ticks,
        prefill_submit_ns: cycles_to_ns(prefill_submit_tsc_ticks, tsc_freq),
        prefill_completion_tsc_ticks,
        prefill_completion_ns: cycles_to_ns(prefill_completion_tsc_ticks, tsc_freq),
        post_submit_completion_tsc_ticks,
        post_submit_completion_ns: cycles_to_ns(post_submit_completion_tsc_ticks, tsc_freq),
        completed: outcome.completed,
        missing: count - outcome.completed,
        errors: outcome.errors,
    }
}

/// How all `submitted` operations of one iteration ended, and whether the
/// sentinel that drained the queue afterwards succeeded.
#[derive(Copy, Clone, Debug, PartialEq, Eq, Structural)]
pub struct SubmitOccupancyTraceOutcome {
    pub iteration_index: usize,
    pub completed: usize,
    pub hardware_observed: usize,
    pub missing: usize,
    pub errors: usize,
    pub drain_sentinel_completed: bool,
    pub drain_sentinel_status: u8,
}

/// The outcome of iteration `iteration_index`: `outcome` of `count`
/// operations, and the drain sentinel's status (success means drained).
pub fn trace_outcome(
    iteration_index: usize,
    count: usize,
    outcome: CompletionOutcome,
    drain_sentinel_status: u8,
) -> (o: SubmitOccupancyTraceOutcome)
    requires
        outcome.completed <= count,
    ensures
        o == (SubmitOccupancyTraceOutcome {
            iteration_index,
            completed: outcome.completed,
            hardware_observed: outcome.completed,
            missing: (count - outcome.completed) as usize,
            errors: outcome.errors,
            drain_sentinel_completed: drain_sentinel_status == crate::dsa::DSA_COMP_SUCCESS,
            drain_sentinel_status,
        }),
{
    SubmitOccupancyTraceOutcome {
        iteration_index,
        completed: outcome.completed,
        hardware_observed: outcome.completed,
        missing: count - outcome.completed,
        errors: outcome.errors,
        drain_sentinel_completed: drain_sentinel_status == crate::dsa::DSA_COMP_SUCCESS,
        drain_sentinel_status,
    }
}

/// Every raw sample of one prefill depth.
#[derive(Clone, Debug, PartialEq, Eq)]
pub struct SubmitOccupancyResult {
    pub benchmark: String,
    pub operation_class: String,
    pub k_prefill: usize,
    pub submitted: usize,
    pub trace_until: usize,
    pub spin_loop_iters: u64,
    pub gap_tsc_ticks: u64,
    pub shared_payload: bool,
    pub prefill_completion_trace: Vec<SubmitOccupancyPrefillCompletionTracePoint>,
    pub extra_submit_trace: Vec<SubmitOccupancyExtraTracePoint>,
    pub trace_outcomes: Vec<SubmitOccupancyTraceOutcome>,
}

} // verus!
