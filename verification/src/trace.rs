//! Per-iteration trace points shared by the submit/poll experiments, and
//! the small vector helpers their accumulators use.

use vstd::prelude::*;
use vstd::slice::slice_to_vec;

use crate::dsa::DSA_COMP_NONE;
use crate::stats::LatencyStats;

verus! {

/// `a.saturating_sub(b)`.
pub open spec fn sat_sub(a: u64, b: u64) -> u64 {
    if a >= b {
        (a - b) as u64
    } else {
        0
    }
}

/// `marker.map(|m| t.saturating_sub(m))`.
pub open spec fn since_marker(t: u64, marker: Option<u64>) -> Option<u64> {
    match marker {
        Some(m) => Some(sat_sub(t, m)),
        None => None,
    }
}

/// The last status read, or `DSA_COMP_NONE` when nothing was read.
pub open spec fn last_status(st: Seq<u8>) -> u8 {
    if st.len() > 0 {
        st.last()
    } else {
        DSA_COMP_NONE
    }
}

/// The first request index polled, widened.
pub open spec fn first_index(req: Seq<usize>) -> Option<u64> {
    if req.len() > 0 {
        Some(req[0] as u64)
    } else {
        None
    }
}

/// The last request index polled, widened.
pub open spec fn last_index(req: Seq<usize>) -> Option<u64> {
    if req.len() > 0 {
        Some(req.last() as u64)
    } else {
        None
    }
}

/// What one submit index looked like in one iteration.
#[derive(Clone, Debug, PartialEq, Eq)]
pub struct SubmitMarkerSampleTracePoint {
    pub submit_index: usize,
    pub submit_tsc_ticks: u64,
    pub submit_start_from_marker_tsc: Option<u64>,
    pub submit_end_from_marker_tsc: Option<u64>,
    pub poll_performed: bool,
    pub poll_end_from_marker_tsc: Option<u64>,
    pub poll_window_tsc_ticks: Option<u64>,
    pub polled_request_indices: Vec<usize>,
    pub poll_latency_tsc_ticks: Vec<u64>,
    pub poll_count: u64,
    pub first_polled_request_index: Option<u64>,
    pub last_polled_request_index: Option<u64>,
    pub visible_prefix_len: u64,
    pub polled_statuses: Vec<u8>,
    pub polled_status: u8,
    pub marker_status: u8,
}

/// Every submit index of one iteration.
#[derive(Clone, Debug, PartialEq, Eq)]
pub struct SubmitMarkerSampleTrace {
    pub iteration_index: usize,
    pub points: Vec<SubmitMarkerSampleTracePoint>,
}

/// The trace point for a submit that ran from `start` to `end`, followed by
/// the status reads `req` (request indices), `lat` (their latencies) and
/// `st` (their statuses).
pub open spec fn is_trace_point(
    p: SubmitMarkerSampleTracePoint,
    submit_index: usize,
    start: u64,
    end: u64,
    marker: Option<u64>,
    poll_window: Option<u64>,
    visible_prefix_len: u64,
    req: Seq<usize>,
    lat: Seq<u64>,
    st: Seq<u8>,
) -> bool {
    &&& p.submit_index == submit_index
    &&& p.submit_tsc_ticks == sat_sub(end, start)
    &&& p.submit_start_from_marker_tsc == since_marker(start, marker)
    &&& p.submit_end_from_marker_tsc == since_marker(end, marker)
    &&& p.poll_performed == (req.len() != 0)
    &&& p.poll_end_from_marker_tsc is None
    &&& p.poll_window_tsc_ticks == poll_window
    &&& p.polled_request_indices@ == req
    &&& p.poll_latency_tsc_ticks@ == lat
    &&& p.poll_count == req.len()
    &&& p.first_polled_request_index == first_index(req)
    &&& p.last_polled_request_index == last_index(req)
    &&& p.visible_prefix_len == visible_prefix_len
    &&& p.polled_statuses@ == st
    &&& p.polled_status == last_status(st)
    &&& p.marker_status == last_status(st)
}

/// `n` copies of `value`.
pub fn filled<T: Copy>(value: T, n: usize) -> (v: Vec<T>)
    ensures
        v@ == Seq::new(n as nat, |i: int| value),
{
    let mut v: Vec<T> = Vec::new();
    let mut i: usize = 0;
    while i < n
        invariant
            i <= n,
            v@ == Seq::new(i as nat, |k: int| value),
        decreases n - i,
    {
        v.push(value);
        i = i + 1;
        assert(v@ =~= Seq::new(i as nat, |k: int| value));
    }
    v
}

/// Sets the first `n` entries of `v` to `value`.
pub fn fill_prefix<T: Copy>(v: &mut Vec<T>, n: usize, value: T)
    requires
        n <= old(v)@.len(),
    ensures
        final(v)@.len() == old(v)@.len(),
        forall|i: int| 0 <= i < n ==> #[trigger] final(v)@[i] == value,
        forall|i: int| n <= i < old(v)@.len() ==> #[trigger] final(v)@[i] == old(v)@[i],
{
    let mut i: usize = 0;
    while i < n
        invariant
            n <= v@.len(),
            v@.len() == old(v)@.len(),
            i <= n,
            forall|k: int| 0 <= k < i ==> #[trigger] v@[k] == value,
            forall|k: int| i <= k < v@.len() ==> #[trigger] v@[k] == old(v)@[k],
        decreases n - i,
    {
        v[i] = value;
        i = i + 1;
    }
}

/// Appends the entries of `src` to `dst`.
pub fn append_slice<T: Copy>(dst: &mut Vec<T>, src: &[T])
    ensures
        final(dst)@ == old(dst)@ + src@,
{
    let mut i: usize = 0;
    while i < src.len()
        invariant
            i <= src@.len(),
            dst@ == old(dst)@ + src@.subrange(0, i as int),
        decreases src@.len() - i,
    {
        dst.push(src[i]);
        i = i + 1;
        assert(dst@ =~= old(dst)@ + src@.subrange(0, i as int));
    }
    assert(src@.subrange(0, src@.len() as int) =~= src@);
}

/// The trace point for one submit index (see `is_trace_point`), with no
/// poll window.
pub fn sample_trace_point(
    submit_index: usize,
    submit_start_tsc: u64,
    submit_end_tsc: u64,
    marker_submit_tsc: Option<u64>,
    visible_prefix_len: u64,
    request_indices: &[usize],
    latency_tsc_ticks: &[u64],
    statuses: &[u8],
) -> (p: SubmitMarkerSampleTracePoint)
    requires
        request_indices@.len() == latency_tsc_ticks@.len(),
        request_indices@.len() == statuses@.len(),
    ensures
        is_trace_point(
            p,
            submit_index,
            submit_start_tsc,
            submit_end_tsc,
            marker_submit_tsc,
            None,
            visible_prefix_len,
            request_indices@,
            latency_tsc_ticks@,
            statuses@,
        ),
{
    trace_point(
        submit_index,
        submit_start_tsc,
        submit_end_tsc,
        marker_submit_tsc,
        None,
        visible_prefix_len,
        request_indices,
        latency_tsc_ticks,
        statuses,
    )
}

/// The trace point for one submit index (see `is_trace_point`).
pub fn trace_point(
    submit_index: usize,
    submit_start_tsc: u64,
    submit_end_tsc: u64,
    marker_submit_tsc: Option<u64>,
    poll_window_tsc_ticks: Option<u64>,
    visible_prefix_len: u64,
    request_indices: &[usize],
    latency_tsc_ticks: &[u64],
    statuses: &[u8],
) -> (p: SubmitMarkerSampleTracePoint)
    ensures
        is_trace_point(
            p,
            submit_index,
            submit_start_tsc,
            submit_end_tsc,
            marker_submit_tsc,
            poll_window_tsc_ticks,
            visible_prefix_len,
            request_indices@,
            latency_tsc_ticks@,
            statuses@,
        ),
{
    let poll_count = request_indices.len() as u64;
    let n = request_indices.len();
    let first = if n > 0 {
        Some(request_indices[0] as u64)
    } else {
        None
    };
    let last = if n > 0 {
        Some(request_indices[n - 1] as u64)
    } else {
        None
    };
    let last_status = if statuses.len() > 0 {
        statuses[statuses.len() - 1]
    } else {
        DSA_COMP_NONE
    };
    SubmitMarkerSampleTracePoint {
        submit_index,
        submit_tsc_ticks: submit_end_tsc.saturating_sub(submit_start_tsc),
        submit_start_from_marker_tsc: match marker_submit_tsc {
            Some(m) => Some(submit_start_tsc.saturating_sub(m)),
            None => None,
        },
        submit_end_from_marker_tsc: match marker_submit_tsc {
            Some(m) => Some(submit_end_tsc.saturating_sub(m)),
            None => None,
        },
        poll_performed: poll_count != 0,
        poll_end_from_marker_tsc: None,
        poll_window_tsc_ticks,
        polled_request_indices: slice_to_vec(request_indices),
        poll_latency_tsc_ticks: slice_to_vec(latency_tsc_ticks),
        poll_count,
        first_polled_request_index: first,
        last_polled_request_index: last,
        visible_prefix_len,
        polled_statuses: slice_to_vec(statuses),
        polled_status: last_status,
        marker_status: last_status,
    }
}

} // verus!
