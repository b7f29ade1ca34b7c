use hw_eval::common::CompletionOutcome;
use hw_eval::config::{DsaOperationClass, MarkerPosition};
use hw_eval::dsa::{DSA_COMP_NONE, DSA_COMP_SUCCESS};
use hw_eval::overlap::{
    record_frontier_read, record_request_completion, record_waited_completion,
    request_completion_accumulators, trace_accumulators, CompletionObservations,
    CompletionPollResult, IterationTrace, OverlapCaseAccumulator, RequestCompletionAccumulator,
    TraceAccumulator,
};
use hw_eval::trace::sample_trace_point;

#[test]
fn trace_accumulators_cover_all_submit_indices() {
    let traces = trace_accumulators(5, 3, 1);

    let submit_indices = traces
        .iter()
        .map(|trace| trace.submit_index)
        .collect::<Vec<_>>();
    let poll_flags = traces
        .iter()
        .map(|trace| trace.poll_performed)
        .collect::<Vec<_>>();

    assert_eq!(submit_indices, vec![0, 1, 2, 3, 4]);
    assert_eq!(poll_flags, vec![false, false, false, true, true]);
}

#[test]
fn iteration_trace_materializes_only_active_submit_indices() {
    let mut trace = IterationTrace::new(5);
    let mut poll = CompletionPollResult::with_capacity(2);

    trace.reset(3);
    trace.record_submit(0, 10, 14);
    trace.record_submit(1, 20, 29);
    trace.record_submit(2, 30, 41);
    poll.record_read(0, DSA_COMP_SUCCESS, 7);
    poll.record_read(1, DSA_COMP_NONE, 11);
    poll.visible_prefix_len = 1;
    trace.record_poll_event(1, &poll);

    let sample = trace.to_sample_trace(3, 0, 0, Some(10));

    assert_eq!(sample.points.len(), 3);
    assert_eq!(sample.points[0].submit_tsc_ticks, 4);
    assert_eq!(sample.points[1].submit_tsc_ticks, 9);
    assert_eq!(sample.points[1].polled_request_indices, vec![0, 1]);
    assert_eq!(sample.points[1].poll_latency_tsc_ticks, vec![7, 11]);
    assert_eq!(sample.points[1].visible_prefix_len, 1);
    assert_eq!(sample.points[2].submit_tsc_ticks, 11);
}

#[test]
fn trace_records_poll_read_latency_and_frontier() {
    let mut trace = TraceAccumulator::new(3, true, 1);
    let mut poll = CompletionPollResult::with_capacity(2);

    poll.record_read(2, DSA_COMP_SUCCESS, 7);
    poll.record_read(3, DSA_COMP_NONE, 11);
    poll.visible_prefix_len = 3;
    trace.record_submit(10, Some(2), Some(12));
    trace.record_poll_summary(poll.visible_prefix_len, poll.read_count());
    trace.record_poll_latencies(&poll.latency_tsc_ticks);

    let point = trace.into_point(1_000_000_000);
    assert_eq!(point.poll_latency_tsc_ticks.unwrap().median, 11);
    assert_eq!(point.poll_count.unwrap().median, 2);
    assert!(point.completions.is_empty());
    assert_eq!(point.visible_count.median, 3);
}

#[test]
fn request_completion_accumulator_reports_observation_stats() {
    let mut accumulator = RequestCompletionAccumulator::new(3, 4);

    accumulator.record(DSA_COMP_SUCCESS, 120, 7, Some(90));
    let trace = accumulator.into_trace(1_000_000_000, 4);

    assert_eq!(trace.request_index, 3);
    assert_eq!(trace.observed_count, 1);
    assert_eq!(trace.success_count, 1);
    assert_eq!(trace.error_count, 0);
    assert_eq!(trace.observed_count as f64 / trace.iterations as f64, 0.25);
    assert_eq!(trace.completion_tsc_ticks.unwrap().median, 120);
    assert_eq!(trace.observed_after_submit_index.unwrap().median, 7);
    assert_eq!(trace.observed_from_marker_tsc.unwrap().median, 90);
}

#[test]
fn sample_trace_point_preserves_frontier_poll_batch() {
    let mut poll = CompletionPollResult::with_capacity(2);
    poll.record_read(2, DSA_COMP_SUCCESS, 22);
    poll.record_read(3, DSA_COMP_NONE, 24);
    poll.visible_prefix_len = 3;

    let point = sample_trace_point(
        3,
        100,
        124,
        Some(80),
        poll.visible_prefix_len,
        &poll.request_indices,
        &poll.latency_tsc_ticks,
        &poll.statuses,
    );

    assert_eq!(point.submit_index, 3);
    assert_eq!(point.submit_tsc_ticks, 24);
    assert_eq!(point.submit_start_from_marker_tsc, Some(20));
    assert_eq!(point.submit_end_from_marker_tsc, Some(44));
    assert_eq!(point.poll_end_from_marker_tsc, None);
    assert_eq!(point.poll_window_tsc_ticks, None);
    assert_eq!(point.polled_request_indices, vec![2, 3]);
    assert_eq!(point.poll_latency_tsc_ticks, vec![22, 24]);
    assert_eq!(point.poll_count, 2);
    assert_eq!(point.visible_prefix_len, 3);
    assert_eq!(point.first_polled_request_index, Some(2));
    assert_eq!(point.last_polled_request_index, Some(3));
    assert_eq!(point.polled_status, DSA_COMP_NONE);
    assert_eq!(point.polled_statuses, vec![DSA_COMP_SUCCESS, DSA_COMP_NONE]);
    assert_eq!(point.marker_status, DSA_COMP_NONE);
}

#[test]
fn sample_trace_before_marker_has_no_marker_times() {
    let mut trace = IterationTrace::new(3);
    trace.reset(3);
    trace.record_submit(0, 5, 8);
    trace.record_submit(1, 10, 16);
    trace.record_submit(2, 20, 23);

    let sample = trace.to_sample_trace(3, 7, 1, Some(10));

    assert_eq!(sample.iteration_index, 7);
    assert_eq!(sample.points[0].submit_start_from_marker_tsc, None);
    assert_eq!(sample.points[1].submit_start_from_marker_tsc, Some(0));
    assert_eq!(sample.points[2].submit_end_from_marker_tsc, Some(13));
    assert!(!sample.points[0].poll_performed);
    assert_eq!(sample.points[0].polled_status, DSA_COMP_NONE);
}

#[test]
fn frontier_read_advances_only_on_written_status() {
    let mut observations = CompletionObservations::new(3);
    let mut poll = CompletionPollResult::with_capacity(3);
    let mut next = 0_usize;

    poll.start_at(next);
    assert!(record_frontier_read(
        &mut observations,
        &mut next,
        &mut poll,
        DSA_COMP_SUCCESS,
        5,
        100,
        2,
        Some(60),
    ));
    assert!(!record_frontier_read(
        &mut observations,
        &mut next,
        &mut poll,
        DSA_COMP_NONE,
        6,
        110,
        2,
        Some(60),
    ));

    assert_eq!(next, 1);
    assert_eq!(poll.visible_prefix_len, 1);
    assert_eq!(poll.request_indices, vec![0, 1]);
    assert_eq!(poll.latency_tsc_ticks, vec![5, 6]);
    assert!(observations.is_observed(0));
    assert!(!observations.is_observed(1));
    assert_eq!(observations.from_marker_tscs[0], Some(40));
    assert_eq!(observations.after_submit_indices[0], 2);
}

#[test]
fn observations_feed_request_accumulators() {
    let mut observations = CompletionObservations::new(3);
    observations.record(0, DSA_COMP_SUCCESS, 150, 1, Some(100));
    observations.record(2, 0x05, 180, 2, None);
    let mut accumulators = request_completion_accumulators(3, 1);

    observations.record_request_completions(3, &[100, 110, 120], &mut accumulators);

    assert_eq!(accumulators[0].completion_tsc, vec![50]);
    assert_eq!(accumulators[0].success_count, 1);
    assert_eq!(accumulators[0].observed_from_marker_tsc, vec![50]);
    assert!(accumulators[1].completion_tsc.is_empty());
    assert_eq!(accumulators[2].completion_tsc, vec![60]);
    assert_eq!(accumulators[2].error_count, 1);
    assert!(accumulators[2].observed_from_marker_tsc.is_empty());

    observations.reset(2);
    assert!(!observations.is_observed(0));
    assert!(observations.is_observed(2));
}

#[test]
fn request_completion_latency_saturates_before_submit() {
    let mut accumulators = request_completion_accumulators(2, 1);
    record_request_completion(1, DSA_COMP_SUCCESS, 90, 1, None, &[0, 100], &mut accumulators);
    assert_eq!(accumulators[1].completion_tsc, vec![0]);
    assert_eq!(accumulators[1].observed_after_submit_index, vec![1]);
}

#[test]
fn waited_completion_tracks_the_marker() {
    let mut observations = CompletionObservations::new(2);
    let marker = record_waited_completion(&mut observations, 1, Some((70, DSA_COMP_SUCCESS)), 1, Some(20), 1, 0);
    assert_eq!(marker, 70);
    assert_eq!(observations.marker_tsc(1), 70);
    let unchanged = record_waited_completion(&mut observations, 0, None, 1, Some(20), 1, marker);
    assert_eq!(unchanged, 70);
    assert!(!observations.is_observed(0));
}

#[test]
fn overlap_case_accumulator_builds_result() {
    let mut case = OverlapCaseAccumulator::new(2);
    let mut trace = IterationTrace::new(2);
    trace.reset(2);
    trace.record_submit(0, 10, 12);
    trace.record_submit(1, 20, 25);
    let sample = trace.to_sample_trace(2, 0, 0, Some(10));
    case.record_iteration(2, 25, Some(10), 10, 18, sample, 2, 0);
    let sample = trace.to_sample_trace(2, 1, 0, Some(10));
    case.record_iteration(2, 25, Some(10), 10, 0, sample, 1, 1);

    let mut traces = trace_accumulators(2, 1, 2);
    for accumulator in traces.iter_mut() {
        accumulator.record_submit(3, None, None);
        accumulator.record_no_poll();
    }
    let requests = request_completion_accumulators(2, 2);
    let result = case.into_result(
        DsaOperationClass::Noop,
        2,
        MarkerPosition::First,
        0,
        1,
        2,
        1_000_000_000,
        requests,
        traces,
    );

    assert_eq!(result.benchmark, "submit_marker_overlap");
    assert_eq!(result.operation_class, "noop");
    assert_eq!(result.marker_position_label, "first");
    assert_eq!(result.poll_cadence, "1");
    assert_eq!(result.marker_observed_before_final_submit_count, 1);
    assert_eq!(result.submit_tail_tsc_ticks.median, 15);
    assert_eq!(result.marker_visible_tsc_ticks.unwrap().median, 8);
    assert_eq!(result.completed.min, 1);
    assert_eq!(result.missing.p999, 1);
    assert_eq!(result.sample_trace.len(), 2);
    assert_eq!(result.trace.len(), 2);
    assert_eq!(result.request_completions.len(), 2);
    assert!(result.request_completions[0].completion_tsc_ticks.is_none());
}

#[test]
fn completion_outcome_counts_errors_by_masked_status() {
    let mut outcome = CompletionOutcome::new();
    assert!(!outcome.record_status(DSA_COMP_NONE));
    assert!(outcome.record_status(DSA_COMP_SUCCESS));
    assert!(outcome.record_status(0x81));
    assert!(outcome.record_status(0x03));
    assert_eq!(outcome.completed, 3);
    assert_eq!(outcome.errors, 1);
}

#[test]
fn request_trace_counts_every_recorded_observation() {
    let mut acc = RequestCompletionAccumulator::new(2, 5);
    acc.record(DSA_COMP_SUCCESS, 100, 3, None);
    acc.record(0x13, 140, 4, Some(20));
    acc.record(DSA_COMP_SUCCESS, 120, 4, None);
    let t = acc.into_trace(1_000_000_000, 5);
    assert_eq!(t.request_index, 2);
    assert_eq!(t.observed_count, 3);
    assert_eq!(t.iterations, 5);
    assert_eq!(t.success_count, 2);
    assert_eq!(t.error_count, 1);
    assert_eq!(t.completion_tsc_ticks.unwrap().median, 120);
    assert_eq!(t.observed_from_marker_tsc.unwrap().median, 20);

    let empty = RequestCompletionAccumulator::new(7, 5).into_trace(1_000_000_000, 5);
    assert_eq!(empty.observed_count, 0);
    assert!(empty.completion_tsc_ticks.is_none());
    assert!(empty.observed_from_marker_tsc.is_none());

    let mut unmarked = RequestCompletionAccumulator::new(1, 2);
    unmarked.record(DSA_COMP_SUCCESS, 10, 0, None);
    let t = unmarked.into_trace(1_000_000_000, 2);
    assert!(t.completion_tsc_ticks.is_some());
    assert!(t.observed_from_marker_tsc.is_none());
}
