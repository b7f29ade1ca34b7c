//! Traced completion visibility across the submit wall.
//!
//! Each iteration submits `n` operations one at a time and, from a chosen
//! submit index on, reads the completion status of the next unfinished
//! operations after every submit. The types here hold what one iteration
//! observed and fold the iterations into per-submit and per-request
//! summaries.

use vstd::prelude::*;
use vstd::slice::slice_subrange;

use crate::config::{DsaOperationClass, MarkerPosition};
use crate::dsa::{DSA_COMP_NONE, DSA_COMP_SUCCESS};
use crate::stats::{
    is_stats_of, optional_stats, optional_stats_from_tsc_slice, stats_from_tsc_slice,
    stats_from_values, ticks_to_ns, LatencyStats,
};
use crate::trace::{
    append_slice, fill_prefix, filled, is_trace_point, sample_trace_point, sat_sub, since_marker,
    SubmitMarkerSampleTrace, SubmitMarkerSampleTracePoint,
};

verus! {

/// The status reads of one poll event: which request each read looked at,
/// what it saw and how long it took, and how far the completed prefix
/// reached afterwards.
pub struct CompletionPollResult {
    pub request_indices: Vec<usize>,
    pub statuses: Vec<u8>,
    pub latency_tsc_ticks: Vec<u64>,
    pub visible_prefix_len: u64,
}

impl CompletionPollResult {
    /// The three read lists have one entry per read.
    pub open spec fn wf(&self) -> bool {
        &&& self.statuses@.len() == self.request_indices@.len()
        &&& self.latency_tsc_ticks@.len() == self.request_indices@.len()
    }

    pub fn with_capacity(capacity: usize) -> (r: Self)
        ensures
            r.wf(),
            r.request_indices@.len() == 0,
            r.visible_prefix_len == 0,
    {
        CompletionPollResult {
            request_indices: Vec::with_capacity(capacity),
            statuses: Vec::with_capacity(capacity),
            latency_tsc_ticks: Vec::with_capacity(capacity),
            visible_prefix_len: 0,
        }
    }

    pub fn clear(&mut self)
        ensures
            final(self).wf(),
            final(self).request_indices@.len() == 0,
            final(self).visible_prefix_len == 0,
    {
        self.request_indices.clear();
        self.statuses.clear();
        self.latency_tsc_ticks.clear();
        self.visible_prefix_len = 0;
    }

    /// Clears the reads of the last poll event; the visible prefix starts
    /// at `frontier`, the next request not yet seen complete.
    pub fn start_at(&mut self, frontier: usize)
        ensures
            final(self).wf(),
            final(self).request_indices@.len() == 0,
            final(self).visible_prefix_len == frontier,
    {
        self.clear();
        self.visible_prefix_len = frontier as u64;
    }

    pub fn record_read(&mut self, request_index: usize, status: u8, latency_tsc: u64)
        ensures
            final(self).request_indices@ == old(self).request_indices@.push(request_index),
            final(self).statuses@ == old(self).statuses@.push(status),
            final(self).latency_tsc_ticks@ == old(self).latency_tsc_ticks@.push(latency_tsc),
            final(self).visible_prefix_len == old(self).visible_prefix_len,
            old(self).wf() ==> final(self).wf(),
    {
        self.request_indices.push(request_index);
        self.statuses.push(status);
        self.latency_tsc_ticks.push(latency_tsc);
    }

    pub fn read_count(&self) -> (n: u64)
        ensures
            n == self.request_indices@.len(),
    {
        self.request_indices.len() as u64
    }
}

/// The submit and poll timings of one iteration, indexed by submit index,
/// with the reads of every poll event stored back to back.
pub struct IterationTrace {
    submit_start_tscs: Vec<u64>,
    submit_end_tscs: Vec<u64>,
    poll_event_offsets: Vec<usize>,
    poll_event_counts: Vec<usize>,
    poll_visible_prefix_lens: Vec<u64>,
    poll_event_request_indices: Vec<usize>,
    poll_event_statuses: Vec<u8>,
    poll_event_latency_tsc_ticks: Vec<u64>,
}

pub ghost struct IterationTraceView {
    pub starts: Seq<u64>,
    pub ends: Seq<u64>,
    pub offsets: Seq<usize>,
    pub counts: Seq<usize>,
    pub prefixes: Seq<u64>,
    pub requests: Seq<usize>,
    pub statuses: Seq<u8>,
    pub latencies: Seq<u64>,
}

impl IterationTraceView {
    /// One slot per submit index; one entry per read in each read list.
    pub open spec fn wf(self) -> bool {
        &&& self.ends.len() == self.starts.len()
        &&& self.offsets.len() == self.starts.len()
        &&& self.counts.len() == self.starts.len()
        &&& self.prefixes.len() == self.starts.len()
        &&& self.statuses.len() == self.requests.len()
        &&& self.latencies.len() == self.requests.len()
    }

    /// The poll events of the first `n` submit indices lie inside the read
    /// lists.
    pub open spec fn events_in_bounds(self, n: int) -> bool {
        forall|k: int|
            0 <= k < n ==> #[trigger] self.offsets[k] + self.counts[k] <= self.requests.len()
    }

    /// The reads of the poll event after submit `k`.
    pub open spec fn event_requests(self, k: int) -> Seq<usize> {
        self.requests.subrange(self.offsets[k] as int, self.offsets[k] + self.counts[k])
    }

    pub open spec fn event_statuses(self, k: int) -> Seq<u8> {
        self.statuses.subrange(self.offsets[k] as int, self.offsets[k] + self.counts[k])
    }

    pub open spec fn event_latencies(self, k: int) -> Seq<u64> {
        self.latencies.subrange(self.offsets[k] as int, self.offsets[k] + self.counts[k])
    }
}

impl View for IterationTrace {
    type V = IterationTraceView;

    closed spec fn view(&self) -> IterationTraceView {
        IterationTraceView {
            starts: self.submit_start_tscs@,
            ends: self.submit_end_tscs@,
            offsets: self.poll_event_offsets@,
            counts: self.poll_event_counts@,
            prefixes: self.poll_visible_prefix_lens@,
            requests: self.poll_event_request_indices@,
            statuses: self.poll_event_statuses@,
            latencies: self.poll_event_latency_tsc_ticks@,
        }
    }
}

impl IterationTrace {
    pub fn new(max_burst: usize) -> (t: Self)
        ensures
            t@.wf(),
            t@.starts.len() == max_burst,
            t@.requests.len() == 0,
            forall|k: int|
                0 <= k < max_burst ==> #[trigger] t@.offsets[k] == 0 && t@.counts[k] == 0,
    {
        let max_poll_reads_per_iteration: usize = if max_burst <= usize::MAX / 2 {
            max_burst * 2
        } else {
            usize::MAX
        };
        IterationTrace {
            submit_start_tscs: filled(0u64, max_burst),
            submit_end_tscs: filled(0u64, max_burst),
            poll_event_offsets: filled(0usize, max_burst),
            poll_event_counts: filled(0usize, max_burst),
            poll_visible_prefix_lens: filled(0u64, max_burst),
            poll_event_request_indices: Vec::with_capacity(max_poll_reads_per_iteration),
            poll_event_statuses: Vec::with_capacity(max_poll_reads_per_iteration),
            poll_event_latency_tsc_ticks: Vec::with_capacity(max_poll_reads_per_iteration),
        }
    }

    /// Clears the first `n` submit slots and every read.
    pub fn reset(&mut self, n: usize)
        requires
            old(self)@.wf(),
            n <= old(self)@.starts.len(),
        ensures
            final(self)@.wf(),
            final(self)@.starts.len() == old(self)@.starts.len(),
            final(self)@.requests.len() == 0,
            final(self)@.events_in_bounds(n as int),
            forall|k: int|
                0 <= k < n ==> {
                    &&& #[trigger] final(self)@.starts[k] == 0
                    &&& final(self)@.ends[k] == 0
                    &&& final(self)@.offsets[k] == 0
                    &&& final(self)@.counts[k] == 0
                    &&& final(self)@.prefixes[k] == 0
                },
    {
        fill_prefix(&mut self.submit_start_tscs, n, 0);
        fill_prefix(&mut self.submit_end_tscs, n, 0);
        fill_prefix(&mut self.poll_event_offsets, n, 0);
        fill_prefix(&mut self.poll_event_counts, n, 0);
        fill_prefix(&mut self.poll_visible_prefix_lens, n, 0);
        self.poll_event_request_indices.clear();
        self.poll_event_statuses.clear();
        self.poll_event_latency_tsc_ticks.clear();
    }

    pub fn record_submit(&mut self, submit_index: usize, start_tsc: u64, end_tsc: u64)
        requires
            old(self)@.wf(),
            submit_index < old(self)@.starts.len(),
        ensures
            final(self)@ == (IterationTraceView {
                starts: old(self)@.starts.update(submit_index as int, start_tsc),
                ends: old(self)@.ends.update(submit_index as int, end_tsc),
                ..old(self)@
            }),
    {
        self.submit_start_tscs[submit_index] = start_tsc;
        self.submit_end_tscs[submit_index] = end_tsc;
    }

    /// Stores the reads of the poll event after submit `submit_index`.
    pub fn record_poll_event(&mut self, submit_index: usize, result: &CompletionPollResult)
        requires
            old(self)@.wf(),
            result.wf(),
            submit_index < old(self)@.starts.len(),
        ensures
            final(self)@ == (IterationTraceView {
                offsets: old(self)@.offsets.update(
                    submit_index as int,
                    old(self)@.requests.len() as usize,
                ),
                counts: old(self)@.counts.update(
                    submit_index as int,
                    result.request_indices@.len() as usize,
                ),
                prefixes: old(self)@.prefixes.update(
                    submit_index as int,
                    result.visible_prefix_len,
                ),
                requests: old(self)@.requests + result.request_indices@,
                statuses: old(self)@.statuses + result.statuses@,
                latencies: old(self)@.latencies + result.latency_tsc_ticks@,
                ..old(self)@
            }),
    {
        let event_start = self.poll_event_request_indices.len();
        self.poll_event_offsets[submit_index] = event_start;
        self.poll_event_counts[submit_index] = result.request_indices.len();
        self.poll_visible_prefix_lens[submit_index] = result.visible_prefix_len;
        append_slice(&mut self.poll_event_request_indices, result.request_indices.as_slice());
        append_slice(&mut self.poll_event_statuses, result.statuses.as_slice());
        append_slice(&mut self.poll_event_latency_tsc_ticks, result.latency_tsc_ticks.as_slice());
    }

    pub fn submit_start_tsc(&self, submit_index: usize) -> (t: u64)
        requires
            submit_index < self@.starts.len(),
        ensures
            t == self@.starts[submit_index as int],
    {
        self.submit_start_tscs[submit_index]
    }

    pub fn submit_end_tsc(&self, submit_index: usize) -> (t: u64)
        requires
            self@.wf(),
            submit_index < self@.starts.len(),
        ensures
            t == self@.ends[submit_index as int],
    {
        self.submit_end_tscs[submit_index]
    }

    /// The submit start times of the first `n` submits.
    pub fn submit_start_tscs(&self, n: usize) -> (s: &[u64])
        requires
            n <= self@.starts.len(),
        ensures
            s@ == self@.starts.subrange(0, n as int),
    {
        slice_subrange(self.submit_start_tscs.as_slice(), 0, n)
    }

    /// The read latencies of the poll event after submit `submit_index`.
    pub fn poll_latencies(&self, submit_index: usize) -> (s: &[u64])
        requires
            self@.wf(),
            submit_index < self@.starts.len(),
            self@.offsets[submit_index as int] + self@.counts[submit_index as int]
                <= self@.requests.len(),
        ensures
            s@ == self@.event_latencies(submit_index as int),
    {
        let recorded = self.poll_event_request_indices.len();
        assert(recorded == self@.requests.len());
        let event_start = self.poll_event_offsets[submit_index];
        let event_end = event_start + self.poll_event_counts[submit_index];
        slice_subrange(self.poll_event_latency_tsc_ticks.as_slice(), event_start, event_end)
    }

    /// The trace point of submit `submit_index`.
    pub fn sample_trace_point(&self, submit_index: usize, marker_submit_tsc: Option<u64>) -> (p:
        SubmitMarkerSampleTracePoint)
        requires
            self@.wf(),
            submit_index < self@.starts.len(),
            self@.offsets[submit_index as int] + self@.counts[submit_index as int]
                <= self@.requests.len(),
        ensures
            is_trace_point(
                p,
                submit_index,
                self@.starts[submit_index as int],
                self@.ends[submit_index as int],
                marker_submit_tsc,
                None,
                self@.prefixes[submit_index as int],
                self@.event_requests(submit_index as int),
                self@.event_latencies(submit_index as int),
                self@.event_statuses(submit_index as int),
            ),
    {
        let recorded = self.poll_event_request_indices.len();
        assert(recorded == self@.requests.len());
        let event_start = self.poll_event_offsets[submit_index];
        let event_end = event_start + self.poll_event_counts[submit_index];
        sample_trace_point(
            submit_index,
            self.submit_start_tscs[submit_index],
            self.submit_end_tscs[submit_index],
            marker_submit_tsc,
            self.poll_visible_prefix_lens[submit_index],
            slice_subrange(self.poll_event_request_indices.as_slice(), event_start, event_end),
            slice_subrange(self.poll_event_latency_tsc_ticks.as_slice(), event_start, event_end),
            slice_subrange(self.poll_event_statuses.as_slice(), event_start, event_end),
        )
    }

    /// The trace of the first `n` submits of iteration `iteration_index`;
    /// submits from the marker on carry their times relative to the marker.
    pub fn to_sample_trace(
        &self,
        n: usize,
        iteration_index: usize,
        marker_position: usize,
        marker_submit_tsc: Option<u64>,
    ) -> (t: SubmitMarkerSampleTrace)
        requires
            self@.wf(),
            n <= self@.starts.len(),
            self@.events_in_bounds(n as int),
        ensures
            t.iteration_index == iteration_index,
            t.points@.len() == n,
            forall|k: int|
                0 <= k < n ==> is_trace_point(
                    #[trigger] t.points@[k],
                    k as usize,
                    self@.starts[k],
                    self@.ends[k],
                    if k >= marker_position {
                        marker_submit_tsc
                    } else {
                        None
                    },
                    None,
                    self@.prefixes[k],
                    self@.event_requests(k),
                    self@.event_latencies(k),
                    self@.event_statuses(k),
                ),
    {
        let mut points: Vec<SubmitMarkerSampleTracePoint> = Vec::new();
        let mut submit_index: usize = 0;
        while submit_index < n
            invariant
                self@.wf(),
                n <= self@.starts.len(),
                self@.events_in_bounds(n as int),
                submit_index <= n,
                points@.len() == submit_index,
                forall|k: int|
                    0 <= k < submit_index ==> is_trace_point(
                        #[trigger] points@[k],
                        k as usize,
                        self@.starts[k],
                        self@.ends[k],
                        if k >= marker_position {
                            marker_submit_tsc
                        } else {
                            None
                        },
                        None,
                        self@.prefixes[k],
                        self@.event_requests(k),
                        self@.event_latencies(k),
                        self@.event_statuses(k),
                    ),
            decreases n - submit_index,
        {
            let point_marker_submit_tsc = if submit_index >= marker_position {
                marker_submit_tsc
            } else {
                None
            };
            assert(self@.offsets[submit_index as int] + self@.counts[submit_index as int]
                <= self@.requests.len());
            let p = self.sample_trace_point(submit_index, point_marker_submit_tsc);
            points.push(p);
            submit_index = submit_index + 1;
        }
        SubmitMarkerSampleTrace { iteration_index, points }
    }
}

/// The per-request summary over all iterations.
#[derive(Clone, Debug, PartialEq, Eq)]
pub struct SubmitMarkerRequestCompletionTrace {
    pub request_index: usize,
    pub observed_count: u64,
    /// The number of iterations; `observed_count / iterations` is the
    /// fraction of iterations in which the request was observed.
    pub iterations: usize,
    pub success_count: u64,
    pub error_count: u64,
    pub observed_after_submit_index: Option<LatencyStats>,
    pub completion_tsc_ticks: Option<LatencyStats>,
    pub completion_ns: Option<LatencyStats>,
    pub observed_from_marker_tsc: Option<LatencyStats>,
}

/// The completion observations of one request over all iterations.
pub struct RequestCompletionAccumulator {
    pub request_index: usize,
    pub observed_after_submit_index: Vec<u64>,
    pub completion_tsc: Vec<u64>,
    pub observed_from_marker_tsc: Vec<u64>,
    pub success_count: u64,
    pub error_count: u64,
}

/// `values` summarised when present.
pub open spec fn optional_stats_of(st: Option<LatencyStats>, values: Seq<u64>) -> bool {
    &&& (values.len() == 0 <==> st is None)
    &&& (st matches Some(s) ==> is_stats_of(s, values))
}

/// `t` summarises the observations of `a` over `iterations` iterations.
pub open spec fn is_request_trace(
    t: SubmitMarkerRequestCompletionTrace,
    a: RequestCompletionAccumulator,
    tsc_freq: u64,
    iterations: usize,
) -> bool {
    &&& t.request_index == a.request_index
    &&& t.observed_count == a.completion_tsc@.len()
    &&& t.iterations == iterations
    &&& t.success_count == a.success_count
    &&& t.error_count == a.error_count
    &&& optional_stats_of(t.observed_after_submit_index, a.observed_after_submit_index@)
    &&& optional_stats_of(t.completion_tsc_ticks, a.completion_tsc@)
    &&& optional_stats_of(t.completion_ns, ticks_to_ns(a.completion_tsc@, tsc_freq))
    &&& optional_stats_of(t.observed_from_marker_tsc, a.observed_from_marker_tsc@)
}

/// `after` is `before` with one more observation: its latency, the submit
/// after which it was seen, its time from the marker when there was one,
/// and one more success (status `DSA_COMP_SUCCESS`) or error.
pub open spec fn records_observation(
    before: RequestCompletionAccumulator,
    after: RequestCompletionAccumulator,
    status: u8,
    completion_tsc: u64,
    observed_after_submit_index: u64,
    observed_from_marker_tsc: Option<u64>,
) -> bool {
    &&& after.wf()
    &&& after.request_index == before.request_index
    &&& after.completion_tsc@ == before.completion_tsc@.push(completion_tsc)
    &&& after.observed_after_submit_index@ == before.observed_after_submit_index@.push(
        observed_after_submit_index,
    )
    &&& after.observed_from_marker_tsc@ == match observed_from_marker_tsc {
        Some(t) => before.observed_from_marker_tsc@.push(t),
        None => before.observed_from_marker_tsc@,
    }
    &&& status == DSA_COMP_SUCCESS ==> after.success_count == before.success_count + 1
        && after.error_count == before.error_count
    &&& status != DSA_COMP_SUCCESS ==> after.error_count == before.error_count + 1
        && after.success_count == before.success_count
}

impl RequestCompletionAccumulator {
    /// Every observation counted once, as a success or an error.
    pub open spec fn wf(&self) -> bool {
        &&& self.observed_after_submit_index@.len() == self.completion_tsc@.len()
        &&& self.success_count + self.error_count == self.completion_tsc@.len()
    }

    pub fn new(request_index: usize, iterations: usize) -> (a: Self)
        ensures
            a.wf(),
            a.request_index == request_index,
            a.completion_tsc@.len() == 0,
            a.observed_from_marker_tsc@.len() == 0,
            a.success_count == 0,
            a.error_count == 0,
    {
        RequestCompletionAccumulator {
            request_index,
            observed_after_submit_index: Vec::with_capacity(iterations),
            completion_tsc: Vec::with_capacity(iterations),
            observed_from_marker_tsc: Vec::with_capacity(iterations),
            success_count: 0,
            error_count: 0,
        }
    }

    /// Adds one observation: a success when the status is
    /// `DSA_COMP_SUCCESS`, an error otherwise.
    pub fn record(
        &mut self,
        status: u8,
        completion_tsc: u64,
        observed_after_submit_index: u64,
        observed_from_marker_tsc: Option<u64>,
    )
        requires
            old(self).wf(),
        ensures
            records_observation(
                *old(self),
                *final(self),
                status,
                completion_tsc,
                observed_after_submit_index,
                observed_from_marker_tsc,
            ),
    {
        self.observed_after_submit_index.push(observed_after_submit_index);
        self.completion_tsc.push(completion_tsc);
        let observed = self.completion_tsc.len();
        assert(observed <= u64::MAX);
        if let Some(t) = observed_from_marker_tsc {
            self.observed_from_marker_tsc.push(t);
        }
        if status == DSA_COMP_SUCCESS {
            self.success_count = self.success_count + 1;
        } else {
            self.error_count = self.error_count + 1;
        }
    }

    /// The summary over `iterations` iterations.
    pub fn into_trace(self, tsc_freq: u64, iterations: usize) -> (t:
        SubmitMarkerRequestCompletionTrace)
        requires
            tsc_freq != 0,
        ensures
            is_request_trace(t, self, tsc_freq, iterations),
    {
        let observed_count = self.completion_tsc.len() as u64;
        let completion_ns = optional_stats_from_tsc_slice(self.completion_tsc.as_slice(), tsc_freq);
        SubmitMarkerRequestCompletionTrace {
            request_index: self.request_index,
            observed_count,
            iterations,
            success_count: self.success_count,
            error_count: self.error_count,
            observed_after_submit_index: optional_stats(self.observed_after_submit_index),
            completion_tsc_ticks: optional_stats(self.completion_tsc),
            completion_ns,
            observed_from_marker_tsc: optional_stats(self.observed_from_marker_tsc),
        }
    }
}

/// How many of the statuses are `DSA_COMP_SUCCESS`.
pub open spec fn count_successes(statuses: Seq<u8>) -> nat
    decreases statuses.len(),
{
    if statuses.len() == 0 {
        0
    } else {
        count_successes(statuses.drop_last()) + if statuses.last() == DSA_COMP_SUCCESS {
            1nat
        } else {
            0nat
        }
    }
}

/// The times that are present, in order.
pub open spec fn present_times(times: Seq<Option<u64>>) -> Seq<u64>
    decreases times.len(),
{
    if times.len() == 0 {
        Seq::empty()
    } else {
        match times.last() {
            Some(t) => present_times(times.drop_last()).push(t),
            None => present_times(times.drop_last()),
        }
    }
}

proof fn lemma_count_successes_bound(statuses: Seq<u8>)
    ensures
        count_successes(statuses) <= statuses.len(),
    decreases statuses.len(),
{
    if statuses.len() > 0 {
        lemma_count_successes_bound(statuses.drop_last());
    }
}

proof fn lemma_present_times_empty(times: Seq<Option<u64>>)
    ensures
        present_times(times).len() == 0 <==> forall|j: int| 0 <= j < times.len() ==> (
        #[trigger] times[j]) is None,
    decreases times.len(),
{
    if times.len() > 0 {
        let init = times.drop_last();
        lemma_present_times_empty(init);
        assert forall|j: int| 0 <= j < init.len() implies init[j] == #[trigger] times[j] by {}
        if present_times(times).len() == 0 {
            assert forall|j: int| 0 <= j < times.len() implies (#[trigger] times[j]) is None by {
                if j < init.len() {
                    assert(init[j] == times[j]);
                } else {
                    assert(times[j] == times.last());
                }
            }
        }
        if forall|j: int| 0 <= j < times.len() ==> (#[trigger] times[j]) is None {
            assert(times[times.len() - 1] is None);
            assert forall|j: int| 0 <= j < init.len() implies (#[trigger] init[j]) is None by {
                assert(init[j] == times[j]);
            }
        }
    }
}

/// After the first `j` observations, the accumulator holds exactly them.
proof fn lemma_observations_prefix(
    states: Seq<RequestCompletionAccumulator>,
    statuses: Seq<u8>,
    completion_tscs: Seq<u64>,
    after_indices: Seq<u64>,
    marker_tscs: Seq<Option<u64>>,
    j: int,
)
    requires
        0 <= j <= statuses.len(),
        completion_tscs.len() == statuses.len(),
        after_indices.len() == statuses.len(),
        marker_tscs.len() == statuses.len(),
        states.len() == statuses.len() + 1,
        states[0].wf(),
        states[0].completion_tsc@.len() == 0,
        states[0].observed_from_marker_tsc@.len() == 0,
        states[0].success_count == 0,
        states[0].error_count == 0,
        forall|i: int|
            0 <= i < statuses.len() ==> records_observation(
                #[trigger] states[i],
                states[i + 1],
                statuses[i],
                completion_tscs[i],
                after_indices[i],
                marker_tscs[i],
            ),
    ensures
        states[j].request_index == states[0].request_index,
        states[j].completion_tsc@ == completion_tscs.subrange(0, j),
        states[j].observed_after_submit_index@ == after_indices.subrange(0, j),
        states[j].observed_from_marker_tsc@ == present_times(marker_tscs.subrange(0, j)),
        states[j].success_count == count_successes(statuses.subrange(0, j)),
        states[j].error_count == j - count_successes(statuses.subrange(0, j)),
    decreases j,
{
    if j == 0 {
        assert(completion_tscs.subrange(0, 0) =~= Seq::<u64>::empty());
        assert(after_indices.subrange(0, 0) =~= Seq::<u64>::empty());
        assert(states[0].observed_after_submit_index@ =~= Seq::<u64>::empty());
        assert(marker_tscs.subrange(0, 0) =~= Seq::<Option<u64>>::empty());
        assert(statuses.subrange(0, 0) =~= Seq::<u8>::empty());
        assert(states[0].observed_from_marker_tsc@ =~= Seq::<u64>::empty());
    } else {
        let i = j - 1;
        lemma_observations_prefix(states, statuses, completion_tscs, after_indices, marker_tscs, i);
        assert(records_observation(
            states[i],
            states[i + 1],
            statuses[i],
            completion_tscs[i],
            after_indices[i],
            marker_tscs[i],
        ));
        assert(completion_tscs.subrange(0, j) =~= completion_tscs.subrange(0, i).push(
            completion_tscs[i],
        ));
        assert(after_indices.subrange(0, j) =~= after_indices.subrange(0, i).push(after_indices[i]));
        assert(marker_tscs.subrange(0, j).drop_last() =~= marker_tscs.subrange(0, i));
        assert(statuses.subrange(0, j).drop_last() =~= statuses.subrange(0, i));
        lemma_count_successes_bound(statuses.subrange(0, i));
    }
}

/// A request's summary after `k` observations: `states[0]` is the
/// accumulator as `RequestCompletionAccumulator::new` makes it, each next
/// state is what `record` leaves, and `t` is what `into_trace` returns for
/// the last, with the given
/// statuses, completion times, submit indices and times from the marker:
/// it names the request, counts `k` observations, the successes among
/// them and the rest as errors, summarises exactly the recorded samples,
/// has no latency summaries when `k` is zero, and no time from the marker
/// when no observation had one.
pub proof fn law_request_trace_after_observations(
    states: Seq<RequestCompletionAccumulator>,
    statuses: Seq<u8>,
    completion_tscs: Seq<u64>,
    after_indices: Seq<u64>,
    marker_tscs: Seq<Option<u64>>,
    t: SubmitMarkerRequestCompletionTrace,
    tsc_freq: u64,
    iterations: usize,
)
    requires
        completion_tscs.len() == statuses.len(),
        after_indices.len() == statuses.len(),
        marker_tscs.len() == statuses.len(),
        states.len() == statuses.len() + 1,
        states[0].wf(),
        states[0].completion_tsc@.len() == 0,
        states[0].observed_from_marker_tsc@.len() == 0,
        states[0].success_count == 0,
        states[0].error_count == 0,
        forall|i: int|
            0 <= i < statuses.len() ==> records_observation(
                #[trigger] states[i],
                states[i + 1],
                statuses[i],
                completion_tscs[i],
                after_indices[i],
                marker_tscs[i],
            ),
        is_request_trace(t, states[statuses.len() as int], tsc_freq, iterations),
    ensures
        t.request_index == states[0].request_index,
        t.observed_count == statuses.len(),
        t.iterations == iterations,
        t.success_count == count_successes(statuses),
        t.error_count == statuses.len() - count_successes(statuses),
        optional_stats_of(t.completion_tsc_ticks, completion_tscs),
        optional_stats_of(t.observed_after_submit_index, after_indices),
        optional_stats_of(t.observed_from_marker_tsc, present_times(marker_tscs)),
        t.completion_tsc_ticks is None <==> statuses.len() == 0,
        t.observed_from_marker_tsc is None <==> forall|j: int|
            0 <= j < marker_tscs.len() ==> (#[trigger] marker_tscs[j]) is None,
{
    let k = statuses.len() as int;
    lemma_observations_prefix(states, statuses, completion_tscs, after_indices, marker_tscs, k);
    assert(completion_tscs.subrange(0, k) =~= completion_tscs);
    assert(after_indices.subrange(0, k) =~= after_indices);
    assert(marker_tscs.subrange(0, k) =~= marker_tscs);
    assert(statuses.subrange(0, k) =~= statuses);
    lemma_present_times_empty(marker_tscs);
}

/// One accumulator per request, in request order.
pub fn request_completion_accumulators(n: usize, iterations: usize) -> (v: Vec<
    RequestCompletionAccumulator,
>)
    ensures
        v@.len() == n,
        forall|k: int|
            0 <= k < n ==> {
                &&& (#[trigger] v@[k]).wf()
                &&& v@[k].request_index == k
                &&& v@[k].completion_tsc@.len() == 0
                &&& v@[k].observed_from_marker_tsc@.len() == 0
            },
{
    let mut v: Vec<RequestCompletionAccumulator> = Vec::new();
    let mut k: usize = 0;
    while k < n
        invariant
            k <= n,
            v@.len() == k,
            forall|j: int|
                0 <= j < k ==> {
                    &&& (#[trigger] v@[j]).wf()
                    &&& v@[j].request_index == j
                    &&& v@[j].completion_tsc@.len() == 0
                    &&& v@[j].observed_from_marker_tsc@.len() == 0
                },
        decreases n - k,
    {
        v.push(RequestCompletionAccumulator::new(k, iterations));
        k = k + 1;
    }
    v
}

/// Adds one observation of request `completion_index` to its accumulator,
/// its latency measured from the request's submit start.
pub fn record_request_completion(
    completion_index: usize,
    status: u8,
    completion_tsc: u64,
    observed_after_submit_index: usize,
    observed_from_marker_tsc: Option<u64>,
    submit_start_tscs: &[u64],
    request_accumulators: &mut Vec<RequestCompletionAccumulator>,
)
    requires
        completion_index < submit_start_tscs@.len(),
        completion_index < old(request_accumulators)@.len(),
        old(request_accumulators)@[completion_index as int].wf(),
    ensures
        final(request_accumulators)@.len() == old(request_accumulators)@.len(),
        forall|k: int|
            0 <= k < old(request_accumulators)@.len() && k != completion_index ==> #[trigger]
                final(request_accumulators)@[k] == old(request_accumulators)@[k],
        records_observation(
            old(request_accumulators)@[completion_index as int],
            final(request_accumulators)@[completion_index as int],
            status,
            sat_sub(completion_tsc, submit_start_tscs@[completion_index as int]),
            observed_after_submit_index as u64,
            observed_from_marker_tsc,
        ),
{
    let latency = completion_tsc.saturating_sub(submit_start_tscs[completion_index]);
    request_accumulators[completion_index].record(
        status,
        latency,
        observed_after_submit_index as u64,
        observed_from_marker_tsc,
    );
}

/// The first completion observed for each request of one iteration: when it
/// was seen, with which status, after which submit, and how long after the
/// marker submit. A time of zero means not yet observed.
pub struct CompletionObservations {
    pub tscs: Vec<u64>,
    pub statuses: Vec<u8>,
    pub after_submit_indices: Vec<usize>,
    pub from_marker_tscs: Vec<Option<u64>>,
}

impl CompletionObservations {
    /// One slot per request.
    pub open spec fn wf(&self) -> bool {
        &&& self.statuses@.len() == self.tscs@.len()
        &&& self.after_submit_indices@.len() == self.tscs@.len()
        &&& self.from_marker_tscs@.len() == self.tscs@.len()
    }

    /// Slot `i` holds nothing.
    pub open spec fn is_clear(&self, i: int) -> bool {
        &&& self.tscs@[i] == 0
        &&& self.statuses@[i] == DSA_COMP_NONE
        &&& self.after_submit_indices@[i] == 0
        &&& self.from_marker_tscs@[i] is None
    }

    pub fn new(max_burst: usize) -> (o: Self)
        ensures
            o.wf(),
            o.tscs@.len() == max_burst,
            forall|i: int| 0 <= i < max_burst ==> #[trigger] o.is_clear(i),
    {
        CompletionObservations {
            tscs: filled(0u64, max_burst),
            statuses: filled(DSA_COMP_NONE, max_burst),
            after_submit_indices: filled(0usize, max_burst),
            from_marker_tscs: filled(None, max_burst),
        }
    }

    /// Clears the first `n` slots and keeps the rest.
    pub fn reset(&mut self, n: usize)
        requires
            old(self).wf(),
            n <= old(self).tscs@.len(),
        ensures
            final(self).wf(),
            final(self).tscs@.len() == old(self).tscs@.len(),
            forall|i: int| 0 <= i < n ==> #[trigger] final(self).is_clear(i),
            forall|i: int|
                n <= i < old(self).tscs@.len() ==> {
                    &&& #[trigger] final(self).tscs@[i] == old(self).tscs@[i]
                    &&& final(self).statuses@[i] == old(self).statuses@[i]
                    &&& final(self).after_submit_indices@[i] == old(self).after_submit_indices@[i]
                    &&& final(self).from_marker_tscs@[i] == old(self).from_marker_tscs@[i]
                },
    {
        fill_prefix(&mut self.tscs, n, 0);
        fill_prefix(&mut self.statuses, n, DSA_COMP_NONE);
        fill_prefix(&mut self.after_submit_indices, n, 0);
        fill_prefix(&mut self.from_marker_tscs, n, None);
    }

    /// Whether request `completion_index` has been observed.
    pub fn is_observed(&self, completion_index: usize) -> (b: bool)
        requires
            completion_index < self.tscs@.len(),
        ensures
            b == (self.tscs@[completion_index as int] != 0),
    {
        self.tscs[completion_index] != 0
    }

    /// When the marker request was observed (zero when it was not).
    pub fn marker_tsc(&self, marker_position: usize) -> (t: u64)
        requires
            marker_position < self.tscs@.len(),
        ensures
            t == self.tscs@[marker_position as int],
    {
        self.tscs[marker_position]
    }

    /// Stores the observation of request `completion_index`.
    pub fn record(
        &mut self,
        completion_index: usize,
        status: u8,
        completion_tsc: u64,
        observed_after_submit_index: usize,
        marker_submit_tsc: Option<u64>,
    )
        requires
            old(self).wf(),
            completion_index < old(self).tscs@.len(),
        ensures
            final(self).wf(),
            final(self).tscs@ == old(self).tscs@.update(completion_index as int, completion_tsc),
            final(self).statuses@ == old(self).statuses@.update(completion_index as int, status),
            final(self).after_submit_indices@ == old(self).after_submit_indices@.update(
                completion_index as int,
                observed_after_submit_index,
            ),
            final(self).from_marker_tscs@ == old(self).from_marker_tscs@.update(
                completion_index as int,
                since_marker(completion_tsc, marker_submit_tsc),
            ),
    {
        self.tscs[completion_index] = completion_tsc;
        self.statuses[completion_index] = status;
        self.after_submit_indices[completion_index] = observed_after_submit_index;
        self.from_marker_tscs[completion_index] = match marker_submit_tsc {
            Some(marker_tsc) => Some(completion_tsc.saturating_sub(marker_tsc)),
            None => None,
        };
    }

    /// Adds every observed request among the first `n` to its accumulator;
    /// the accumulators of requests not observed stay as they were.
    pub fn record_request_completions(
        &self,
        n: usize,
        submit_start_tscs: &[u64],
        request_accumulators: &mut Vec<RequestCompletionAccumulator>,
    )
        requires
            self.wf(),
            n <= self.tscs@.len(),
            n <= submit_start_tscs@.len(),
            n <= old(request_accumulators)@.len(),
            forall|k: int| 0 <= k < n ==> (#[trigger] old(request_accumulators)@[k]).wf(),
        ensures
            final(request_accumulators)@.len() == old(request_accumulators)@.len(),
            forall|k: int|
                n <= k < old(request_accumulators)@.len() ==> #[trigger] final(request_accumulators)@[k] == old(request_accumulators)@[k],
            forall|k: int|
                0 <= k < n ==> {
                    &&& self.tscs@[k] == 0 ==> #[trigger] final(request_accumulators)@[k] == old(request_accumulators)@[k]
                    &&& self.tscs@[k] != 0 ==> records_observation(
                        old(request_accumulators)@[k],
                        final(request_accumulators)@[k],
                        self.statuses@[k],
                        sat_sub(self.tscs@[k], submit_start_tscs@[k]),
                        self.after_submit_indices@[k] as u64,
                        self.from_marker_tscs@[k],
                    )
                },
    {
        let mut completion_index: usize = 0;
        while completion_index < n
            invariant
                self.wf(),
                n <= self.tscs@.len(),
                n <= submit_start_tscs@.len(),
                completion_index <= n,
                request_accumulators@.len() == old(request_accumulators)@.len(),
                n <= request_accumulators@.len(),
                forall|k: int|
                    completion_index <= k < request_accumulators@.len() ==> #[trigger]
                        request_accumulators@[k] == old(request_accumulators)@[k],
                forall|k: int| 0 <= k < n ==> (#[trigger] old(request_accumulators)@[k]).wf(),
                forall|k: int|
                    0 <= k < completion_index ==> {
                        &&& self.tscs@[k] == 0 ==> #[trigger] request_accumulators@[k] == old(request_accumulators)@[k]
                        &&& self.tscs@[k] != 0 ==> records_observation(
                            old(request_accumulators)@[k],
                            request_accumulators@[k],
                            self.statuses@[k],
                            sat_sub(self.tscs@[k], submit_start_tscs@[k]),
                            self.after_submit_indices@[k] as u64,
                            self.from_marker_tscs@[k],
                        )
                    },
            decreases n - completion_index,
        {
            if self.is_observed(completion_index) {
                record_request_completion(
                    completion_index,
                    self.statuses[completion_index],
                    self.tscs[completion_index],
                    self.after_submit_indices[completion_index],
                    self.from_marker_tscs[completion_index],
                    submit_start_tscs,
                    request_accumulators,
                );
            }
            completion_index = completion_index + 1;
        }
    }
}

/// The summary of one submit index over all iterations.
#[derive(Clone, Debug, PartialEq, Eq)]
pub struct SubmitMarkerTracePoint {
    pub poll_performed: bool,
    pub submit_index: usize,
    pub submit_tsc_ticks: LatencyStats,
    pub submit_start_from_marker_tsc: Option<LatencyStats>,
    pub submit_end_from_marker_tsc: Option<LatencyStats>,
    pub poll_end_from_marker_tsc: Option<LatencyStats>,
    pub poll_window_tsc_ticks: Option<LatencyStats>,
    pub poll_latency_tsc_ticks: Option<LatencyStats>,
    pub poll_latency_ns: Option<LatencyStats>,
    pub poll_count: Option<LatencyStats>,
    pub first_polled_request_index: Option<LatencyStats>,
    pub last_polled_request_index: Option<LatencyStats>,
    pub poll_window_ns: Option<LatencyStats>,
    pub submit_ns: LatencyStats,
    pub visible_prefix_len: LatencyStats,
    pub visible_count: LatencyStats,
    pub completions: Vec<SubmitMarkerRequestCompletionTrace>,
}

/// `p` summarises the samples of `a`; the poll window and the polled
/// request indices are not traced, and no completions are attached.
pub open spec fn is_trace_summary(p: SubmitMarkerTracePoint, a: TraceAccumulator, tsc_freq: u64) -> bool {
    &&& p.poll_performed == a.poll_performed
    &&& p.submit_index == a.submit_index
    &&& is_stats_of(p.submit_tsc_ticks, a.submit_tsc@)
    &&& is_stats_of(p.submit_ns, ticks_to_ns(a.submit_tsc@, tsc_freq))
    &&& optional_stats_of(p.submit_start_from_marker_tsc, a.submit_start_from_marker_tsc@)
    &&& optional_stats_of(p.submit_end_from_marker_tsc, a.submit_end_from_marker_tsc@)
    &&& p.poll_end_from_marker_tsc is None
    &&& p.poll_window_tsc_ticks is None
    &&& p.poll_window_ns is None
    &&& optional_stats_of(p.poll_latency_tsc_ticks, a.poll_latency_tsc@)
    &&& optional_stats_of(p.poll_latency_ns, ticks_to_ns(a.poll_latency_tsc@, tsc_freq))
    &&& optional_stats_of(p.poll_count, a.poll_count@)
    &&& p.first_polled_request_index is None
    &&& p.last_polled_request_index is None
    &&& is_stats_of(p.visible_count, a.visible_count@)
    &&& p.visible_prefix_len == p.visible_count
    &&& p.completions@.len() == 0
}

/// The samples of one submit index over all iterations: its submit time,
/// its start and end relative to the marker (from the marker on), the
/// latency of every status read after it, the number of reads and the
/// visible completed prefix after it.
pub struct TraceAccumulator {
    pub submit_index: usize,
    pub poll_performed: bool,
    pub submit_tsc: Vec<u64>,
    pub submit_start_from_marker_tsc: Vec<u64>,
    pub submit_end_from_marker_tsc: Vec<u64>,
    pub poll_latency_tsc: Vec<u64>,
    pub poll_count: Vec<u64>,
    pub visible_count: Vec<u64>,
}

impl TraceAccumulator {
    /// No samples yet.
    pub open spec fn is_empty(&self) -> bool {
        &&& self.submit_tsc@.len() == 0
        &&& self.submit_start_from_marker_tsc@.len() == 0
        &&& self.submit_end_from_marker_tsc@.len() == 0
        &&& self.poll_latency_tsc@.len() == 0
        &&& self.poll_count@.len() == 0
        &&& self.visible_count@.len() == 0
    }

    pub fn new(submit_index: usize, poll_performed: bool, iterations: usize) -> (a: Self)
        ensures
            a.submit_index == submit_index,
            a.poll_performed == poll_performed,
            a.is_empty(),
    {
        let poll_capacity: usize = if poll_performed {
            iterations
        } else {
            0
        };
        TraceAccumulator {
            submit_index,
            poll_performed,
            submit_tsc: Vec::with_capacity(iterations),
            submit_start_from_marker_tsc: Vec::with_capacity(iterations),
            submit_end_from_marker_tsc: Vec::with_capacity(iterations),
            poll_latency_tsc: Vec::with_capacity(poll_capacity),
            poll_count: Vec::with_capacity(poll_capacity),
            visible_count: Vec::with_capacity(iterations),
        }
    }

    /// Adds one submit time, and its times from the marker where there are
    /// any.
    pub fn record_submit(
        &mut self,
        submit_tsc: u64,
        start_from_marker_tsc: Option<u64>,
        end_from_marker_tsc: Option<u64>,
    )
        ensures
            final(self).submit_tsc@ == old(self).submit_tsc@.push(submit_tsc),
            final(self).submit_start_from_marker_tsc@ == match start_from_marker_tsc {
                Some(t) => old(self).submit_start_from_marker_tsc@.push(t),
                None => old(self).submit_start_from_marker_tsc@,
            },
            final(self).submit_end_from_marker_tsc@ == match end_from_marker_tsc {
                Some(t) => old(self).submit_end_from_marker_tsc@.push(t),
                None => old(self).submit_end_from_marker_tsc@,
            },
            final(self).submit_index == old(self).submit_index,
            final(self).poll_performed == old(self).poll_performed,
            final(self).poll_latency_tsc@ == old(self).poll_latency_tsc@,
            final(self).poll_count@ == old(self).poll_count@,
            final(self).visible_count@ == old(self).visible_count@,
    {
        self.submit_tsc.push(submit_tsc);
        if let Some(t) = start_from_marker_tsc {
            self.submit_start_from_marker_tsc.push(t);
        }
        if let Some(t) = end_from_marker_tsc {
            self.submit_end_from_marker_tsc.push(t);
        }
    }

    /// Adds the visible prefix and the read count of one poll event.
    pub fn record_poll_summary(&mut self, visible_prefix_len: u64, read_count: u64)
        ensures
            final(self).visible_count@ == old(self).visible_count@.push(visible_prefix_len),
            final(self).poll_count@ == old(self).poll_count@.push(read_count),
            final(self).submit_index == old(self).submit_index,
            final(self).poll_performed == old(self).poll_performed,
            final(self).submit_tsc@ == old(self).submit_tsc@,
            final(self).submit_start_from_marker_tsc@ == old(self).submit_start_from_marker_tsc@,
            final(self).submit_end_from_marker_tsc@ == old(self).submit_end_from_marker_tsc@,
            final(self).poll_latency_tsc@ == old(self).poll_latency_tsc@,
    {
        self.visible_count.push(visible_prefix_len);
        self.poll_count.push(read_count);
    }

    /// An iteration without a poll after this submit: nothing was visible.
    pub fn record_no_poll(&mut self)
        ensures
            final(self).visible_count@ == old(self).visible_count@.push(0),
            final(self).submit_index == old(self).submit_index,
            final(self).poll_performed == old(self).poll_performed,
            final(self).submit_tsc@ == old(self).submit_tsc@,
            final(self).submit_start_from_marker_tsc@ == old(self).submit_start_from_marker_tsc@,
            final(self).submit_end_from_marker_tsc@ == old(self).submit_end_from_marker_tsc@,
            final(self).poll_latency_tsc@ == old(self).poll_latency_tsc@,
            final(self).poll_count@ == old(self).poll_count@,
    {
        self.visible_count.push(0);
    }

    /// Adds the latencies of every read of one poll event.
    pub fn record_poll_latencies(&mut self, latency_tsc_ticks: &[u64])
        ensures
            final(self).poll_latency_tsc@ == old(self).poll_latency_tsc@ + latency_tsc_ticks@,
            final(self).submit_index == old(self).submit_index,
            final(self).poll_performed == old(self).poll_performed,
            final(self).submit_tsc@ == old(self).submit_tsc@,
            final(self).submit_start_from_marker_tsc@ == old(self).submit_start_from_marker_tsc@,
            final(self).submit_end_from_marker_tsc@ == old(self).submit_end_from_marker_tsc@,
            final(self).poll_count@ == old(self).poll_count@,
            final(self).visible_count@ == old(self).visible_count@,
    {
        append_slice(&mut self.poll_latency_tsc, latency_tsc_ticks);
    }

    /// The summary of this submit index; the poll window and the polled
    /// request indices are not traced here, and no completions are attached.
    pub fn into_point(self, tsc_freq: u64) -> (p: SubmitMarkerTracePoint)
        requires
            self.submit_tsc@.len() > 0,
            self.visible_count@.len() > 0,
            tsc_freq != 0,
        ensures
            is_trace_summary(p, self, tsc_freq),
    {
        let submit_ns = stats_from_tsc_slice(self.submit_tsc.as_slice(), tsc_freq);
        let poll_latency_ns = optional_stats_from_tsc_slice(
            self.poll_latency_tsc.as_slice(),
            tsc_freq,
        );
        let visible_count = stats_from_values(self.visible_count);
        SubmitMarkerTracePoint {
            poll_performed: self.poll_performed,
            submit_index: self.submit_index,
            submit_tsc_ticks: stats_from_values(self.submit_tsc),
            submit_start_from_marker_tsc: optional_stats(self.submit_start_from_marker_tsc),
            submit_end_from_marker_tsc: optional_stats(self.submit_end_from_marker_tsc),
            poll_end_from_marker_tsc: None,
            poll_window_tsc_ticks: None,
            poll_latency_tsc_ticks: optional_stats(self.poll_latency_tsc),
            poll_latency_ns,
            poll_count: optional_stats(self.poll_count),
            first_polled_request_index: None,
            last_polled_request_index: None,
            poll_window_ns: None,
            submit_ns,
            visible_prefix_len: visible_count,
            visible_count,
            completions: Vec::new(),
        }
    }
}

/// One accumulator per submit index, in submit order; those from
/// `poll_offset` on are followed by a poll.
pub fn trace_accumulators(n: usize, poll_offset: usize, iterations: usize) -> (v: Vec<
    TraceAccumulator,
>)
    ensures
        v@.len() == n,
        forall|k: int|
            0 <= k < n ==> {
                &&& (#[trigger] v@[k]).submit_index == k
                &&& v@[k].poll_performed == (k >= poll_offset)
                &&& v@[k].is_empty()
            },
{
    let mut v: Vec<TraceAccumulator> = Vec::new();
    let mut k: usize = 0;
    while k < n
        invariant
            k <= n,
            v@.len() == k,
            forall|j: int|
                0 <= j < k ==> {
                    &&& (#[trigger] v@[j]).submit_index == j
                    &&& v@[j].poll_performed == (j >= poll_offset)
                    &&& v@[j].is_empty()
                },
        decreases n - k,
    {
        v.push(TraceAccumulator::new(k, k >= poll_offset, iterations));
        k = k + 1;
    }
    v
}

/// One status read at the poll frontier `next`: the read is recorded in
/// `result`; a written status is recorded as the observation of request
/// `next`, which moves the frontier on by one. Returns whether the frontier
/// moved, that is whether polling goes on.
pub fn record_frontier_read(
    observations: &mut CompletionObservations,
    next: &mut usize,
    result: &mut CompletionPollResult,
    status: u8,
    latency_tsc: u64,
    end_tsc: u64,
    submit_index: usize,
    marker_submit_tsc: Option<u64>,
) -> (advanced: bool)
    requires
        old(observations).wf(),
        old(result).wf(),
        *old(next) < old(observations).tscs@.len(),
    ensures
        advanced == (status != DSA_COMP_NONE),
        final(result).wf(),
        final(result).request_indices@ == old(result).request_indices@.push(*old(next)),
        final(result).statuses@ == old(result).statuses@.push(status),
        final(result).latency_tsc_ticks@ == old(result).latency_tsc_ticks@.push(latency_tsc),
        final(result).visible_prefix_len == *final(next),
        final(observations).wf(),
        !advanced ==> *final(next) == *old(next) && *final(observations) == *old(observations),
        advanced ==> {
            &&& *final(next) == *old(next) + 1
            &&& final(observations).tscs@ == old(observations).tscs@.update(
                *old(next) as int,
                end_tsc,
            )
            &&& final(observations).statuses@ == old(observations).statuses@.update(
                *old(next) as int,
                status,
            )
            &&& final(observations).after_submit_indices@
                == old(observations).after_submit_indices@.update(*old(next) as int, submit_index)
            &&& final(observations).from_marker_tscs@ == old(observations).from_marker_tscs@.update(
                *old(next) as int,
                since_marker(end_tsc, marker_submit_tsc),
            )
        },
{
    let completion_index = *next;
    result.record_read(completion_index, status, latency_tsc);
    if status == DSA_COMP_NONE {
        result.visible_prefix_len = completion_index as u64;
        return false;
    }
    let slots = observations.tscs.len();
    assert(completion_index + 1 <= slots);
    observations.record(completion_index, status, end_tsc, submit_index, marker_submit_tsc);
    *next = completion_index + 1;
    result.visible_prefix_len = *next as u64;
    true
}

/// The outcome of waiting for request `completion_index` after the submit
/// loop: when it completed, its time and status are recorded, and the
/// marker's observation time is that time if it is the marker. Returns the
/// marker's observation time.
pub fn record_waited_completion(
    observations: &mut CompletionObservations,
    completion_index: usize,
    waited: Option<(u64, u8)>,
    observed_after_submit_index: usize,
    marker_submit_tsc: Option<u64>,
    marker_position: usize,
    marker_observed_tsc: u64,
) -> (marker_tsc: u64)
    requires
        old(observations).wf(),
        completion_index < old(observations).tscs@.len(),
    ensures
        final(observations).wf(),
        waited is None ==> *final(observations) == *old(observations) && marker_tsc
            == marker_observed_tsc,
        waited matches Some((tsc, status)) ==> {
            &&& final(observations).tscs@ == old(observations).tscs@.update(
                completion_index as int,
                tsc,
            )
            &&& final(observations).statuses@ == old(observations).statuses@.update(
                completion_index as int,
                status,
            )
            &&& final(observations).after_submit_indices@
                == old(observations).after_submit_indices@.update(
                completion_index as int,
                observed_after_submit_index,
            )
            &&& final(observations).from_marker_tscs@ == old(observations).from_marker_tscs@.update(
                completion_index as int,
                since_marker(tsc, marker_submit_tsc),
            )
            &&& marker_tsc == if completion_index == marker_position {
                tsc
            } else {
                marker_observed_tsc
            }
        },
{
    match waited {
        Some((completion_tsc, status)) => {
            observations.record(
                completion_index,
                status,
                completion_tsc,
                observed_after_submit_index,
                marker_submit_tsc,
            );
            if completion_index == marker_position {
                completion_tsc
            } else {
                marker_observed_tsc
            }
        },
        None => marker_observed_tsc,
    }
}

/// The summary of one overlap case: a burst size, a marker position and a
/// poll offset, over all iterations.
#[derive(Clone, Debug, PartialEq, Eq)]
pub struct SubmitMarkerOverlapResult {
    pub benchmark: String,
    pub operation_class: String,
    pub n: usize,
    pub marker_position: usize,
    pub marker_position_label: String,
    pub poll_cadence: String,
    pub marker_poll_offset: usize,
    pub poll_step: usize,
    pub tracked_completions: usize,
    pub submit_tail_tsc_ticks: LatencyStats,
    pub submit_tail_ns: LatencyStats,
    pub marker_visible_tsc_ticks: Option<LatencyStats>,
    pub marker_visible_ns: Option<LatencyStats>,
    pub marker_observed_before_final_submit_count: u64,
    /// The number of iterations; the count above divided by it is the
    /// fraction of iterations in which the marker was seen complete before
    /// the last submit ended.
    pub iterations: usize,
    pub completed: LatencyStats,
    pub missing: LatencyStats,
    pub errors: LatencyStats,
    pub request_completions: Vec<SubmitMarkerRequestCompletionTrace>,
    pub sample_trace: Vec<SubmitMarkerSampleTrace>,
    pub trace: Vec<SubmitMarkerTracePoint>,
}

/// The name under which overlap results are reported.
pub open spec fn overlap_benchmark_name() -> Seq<char> {
    "submit_marker_overlap"@
}

/// The per-iteration samples of one overlap case.
pub struct OverlapCaseAccumulator {
    pub submit_tail_tsc: Vec<u64>,
    pub marker_visible_tsc: Vec<u64>,
    pub completed_counts: Vec<u64>,
    pub missing_counts: Vec<u64>,
    pub error_counts: Vec<u64>,
    pub observed_before_final_submit: u64,
    pub sample_trace: Vec<SubmitMarkerSampleTrace>,
}

impl OverlapCaseAccumulator {
    /// One outcome per iteration recorded, and the marker seen early in at
    /// most that many.
    pub open spec fn wf(&self) -> bool {
        &&& self.missing_counts@.len() == self.completed_counts@.len()
        &&& self.error_counts@.len() == self.completed_counts@.len()
        &&& self.observed_before_final_submit <= self.completed_counts@.len()
    }

    pub fn new(iterations: usize) -> (a: Self)
        ensures
            a.wf(),
            a.submit_tail_tsc@.len() == 0,
            a.marker_visible_tsc@.len() == 0,
            a.completed_counts@.len() == 0,
            a.observed_before_final_submit == 0,
            a.sample_trace@.len() == 0,
    {
        OverlapCaseAccumulator {
            submit_tail_tsc: Vec::with_capacity(iterations),
            marker_visible_tsc: Vec::with_capacity(iterations),
            completed_counts: Vec::with_capacity(iterations),
            missing_counts: Vec::with_capacity(iterations),
            error_counts: Vec::with_capacity(iterations),
            observed_before_final_submit: 0,
            sample_trace: Vec::with_capacity(iterations),
        }
    }

    /// Folds in one iteration of `n` submits: the last submit ended at
    /// `final_submit_tsc`, the marker was submitted at `marker_submit_tsc`
    /// (its submit started at `marker_start_tsc`) and seen complete at
    /// `marker_observed_tsc` (zero when never), and `completed` requests
    /// completed, `errors` of them with an error.
    pub fn record_iteration(
        &mut self,
        n: usize,
        final_submit_tsc: u64,
        marker_submit_tsc: Option<u64>,
        marker_start_tsc: u64,
        marker_observed_tsc: u64,
        sample: SubmitMarkerSampleTrace,
        completed: usize,
        errors: usize,
    )
        requires
            old(self).wf(),
            completed <= n,
        ensures
            final(self).wf(),
            final(self).observed_before_final_submit == old(self).observed_before_final_submit
                + if marker_observed_tsc != 0 && marker_observed_tsc < final_submit_tsc {
                1int
            } else {
                0int
            },
            final(self).marker_visible_tsc@ == if marker_observed_tsc != 0 {
                old(self).marker_visible_tsc@.push(sat_sub(marker_observed_tsc, marker_start_tsc))
            } else {
                old(self).marker_visible_tsc@
            },
            final(self).submit_tail_tsc@ == match marker_submit_tsc {
                Some(m) => old(self).submit_tail_tsc@.push(sat_sub(final_submit_tsc, m)),
                None => old(self).submit_tail_tsc@,
            },
            final(self).sample_trace@ == old(self).sample_trace@.push(sample),
            final(self).completed_counts@ == old(self).completed_counts@.push(completed as u64),
            final(self).missing_counts@ == old(self).missing_counts@.push((n - completed) as u64),
            final(self).error_counts@ == old(self).error_counts@.push(errors as u64),
    {
        if marker_observed_tsc != 0 {
            self.marker_visible_tsc.push(marker_observed_tsc.saturating_sub(marker_start_tsc));
        }
        self.sample_trace.push(sample);
        if let Some(marker_tsc) = marker_submit_tsc {
            self.submit_tail_tsc.push(final_submit_tsc.saturating_sub(marker_tsc));
        }
        self.completed_counts.push(completed as u64);
        self.missing_counts.push((n - completed) as u64);
        self.error_counts.push(errors as u64);
        let recorded = self.completed_counts.len();
        if marker_observed_tsc != 0 && marker_observed_tsc < final_submit_tsc {
            assert(self.observed_before_final_submit < recorded);
            self.observed_before_final_submit = self.observed_before_final_submit + 1;
        }
    }

    /// The result of the case: the marker at `marker_position` (labelled
    /// `position`), polls from `poll_offset` on, one request summary per
    /// accumulator of `request_accumulators` and one trace point per
    /// accumulator of `trace_accumulators`, in order.
    pub fn into_result(
        self,
        operation: DsaOperationClass,
        n: usize,
        position: MarkerPosition,
        marker_position: usize,
        poll_offset: usize,
        iterations: usize,
        tsc_freq: u64,
        request_accumulators: Vec<RequestCompletionAccumulator>,
        trace_accumulators: Vec<TraceAccumulator>,
    ) -> (r: SubmitMarkerOverlapResult)
        requires
            self.wf(),
            tsc_freq != 0,
            self.submit_tail_tsc@.len() > 0,
            self.completed_counts@.len() > 0,
            forall|k: int|
                0 <= k < trace_accumulators@.len() ==> {
                    &&& (#[trigger] trace_accumulators@[k]).submit_tsc@.len() > 0
                    &&& trace_accumulators@[k].visible_count@.len() > 0
                },
        ensures
            r.benchmark@ == overlap_benchmark_name(),
            r.operation_class@ == operation.spec_name(),
            r.n == n,
            r.marker_position == marker_position,
            r.marker_position_label@ == position.spec_name(),
            r.poll_cadence@ == "1"@,
            r.marker_poll_offset == poll_offset,
            r.poll_step == 1,
            r.tracked_completions == 0,
            is_stats_of(r.submit_tail_tsc_ticks, self.submit_tail_tsc@),
            is_stats_of(r.submit_tail_ns, ticks_to_ns(self.submit_tail_tsc@, tsc_freq)),
            optional_stats_of(r.marker_visible_tsc_ticks, self.marker_visible_tsc@),
            optional_stats_of(r.marker_visible_ns, ticks_to_ns(self.marker_visible_tsc@, tsc_freq)),
            r.marker_observed_before_final_submit_count == self.observed_before_final_submit,
            r.iterations == iterations,
            is_stats_of(r.completed, self.completed_counts@),
            is_stats_of(r.missing, self.missing_counts@),
            is_stats_of(r.errors, self.error_counts@),
            r.sample_trace@ == self.sample_trace@,
            r.request_completions@.len() == request_accumulators@.len(),
            forall|k: int|
                0 <= k < request_accumulators@.len() ==> is_request_trace(
                    #[trigger] r.request_completions@[k],
                    request_accumulators@[k],
                    tsc_freq,
                    iterations,
                ),
            r.trace@.len() == trace_accumulators@.len(),
            forall|k: int|
                0 <= k < trace_accumulators@.len() ==> is_trace_summary(
                    #[trigger] r.trace@[k],
                    trace_accumulators@[k],
                    tsc_freq,
                ),
    {
        let submit_tail_ns = stats_from_tsc_slice(self.submit_tail_tsc.as_slice(), tsc_freq);
        let marker_visible_ns = optional_stats_from_tsc_slice(
            self.marker_visible_tsc.as_slice(),
            tsc_freq,
        );
        let mut request_completions: Vec<SubmitMarkerRequestCompletionTrace> = Vec::new();
        let ghost requests = request_accumulators@;
        for accumulator in it: request_accumulators.into_iter()
            invariant
                tsc_freq != 0,
                it.seq() == requests,
                request_completions@.len() == it.index(),
                forall|k: int|
                    0 <= k < it.index() ==> is_request_trace(
                        #[trigger] request_completions@[k],
                        requests[k],
                        tsc_freq,
                        iterations,
                    ),
        {
            request_completions.push(accumulator.into_trace(tsc_freq, iterations));
        }
        let mut trace: Vec<SubmitMarkerTracePoint> = Vec::new();
        let ghost traces = trace_accumulators@;
        for accumulator in it: trace_accumulators.into_iter()
            invariant
                tsc_freq != 0,
                it.seq() == traces,
                forall|k: int|
                    0 <= k < traces.len() ==> {
                        &&& (#[trigger] traces[k]).submit_tsc@.len() > 0
                        &&& traces[k].visible_count@.len() > 0
                    },
                trace@.len() == it.index(),
                forall|k: int|
                    0 <= k < it.index() ==> is_trace_summary(
                        #[trigger] trace@[k],
                        traces[k],
                        tsc_freq,
                    ),
        {
            trace.push(accumulator.into_point(tsc_freq));
        }
        SubmitMarkerOverlapResult {
            benchmark: String::from_str("submit_marker_overlap"),
            operation_class: String::from_str(operation.as_str()),
            n,
            marker_position,
            marker_position_label: String::from_str(position.as_str()),
            poll_cadence: String::from_str("1"),
            marker_poll_offset: poll_offset,
            poll_step: 1,
            tracked_completions: 0,
            submit_tail_tsc_ticks: stats_from_values(self.submit_tail_tsc),
            submit_tail_ns,
            marker_visible_tsc_ticks: optional_stats(self.marker_visible_tsc),
            marker_visible_ns,
            marker_observed_before_final_submit_count: self.observed_before_final_submit,
            iterations,
            completed: stats_from_values(self.completed_counts),
            missing: stats_from_values(self.missing_counts),
            errors: stats_from_values(self.error_counts),
            request_completions,
            sample_trace: self.sample_trace,
            trace,
        }
    }
}

} // verus!
