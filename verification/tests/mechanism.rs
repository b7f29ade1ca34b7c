use hw_eval::common::CompletionOutcome;
use hw_eval::config::DsaOperationClass;
use hw_eval::mechanism::{
    advance_line_run, line_position, mechanism_probe_plan, median_gap, prefetch_target,
    should_poll_after_submit,
    BaselineSummary, CacheState, CompletionLayout, IterationTrace, ProbeAccumulator, ProbeSpec,
    TimingMode, CACHELINE_BYTES, COMPLETION_RECORD_BYTES,
};
use hw_eval::stats::LatencyStats;

#[test]
fn cacheline_position_uses_actual_base_alignment() {
    fn position(base_mod_64: usize, index: usize, stride: usize) -> usize {
        line_position(base_mod_64 + index * stride)
    }

    assert_eq!(position(0, 0, COMPLETION_RECORD_BYTES), 0);
    assert_eq!(position(0, 1, COMPLETION_RECORD_BYTES), 1);
    assert_eq!(position(0, 2, COMPLETION_RECORD_BYTES), 0);
    assert_eq!(position(32, 0, COMPLETION_RECORD_BYTES), 1);
    assert_eq!(position(32, 1, COMPLETION_RECORD_BYTES), 0);
    assert_eq!(position(0, 1, CACHELINE_BYTES), 0);
}

#[test]
fn poll_submit_batch_counts_submissions_between_polls() {
    let n = 10;
    let poll_offset = 2;
    let poll_submit_batch_n = 3;

    let poll_points = (0..n)
        .filter(|&submit_index| {
            should_poll_after_submit(submit_index, n, poll_offset, poll_submit_batch_n)
        })
        .collect::<Vec<_>>();

    assert_eq!(poll_points, vec![4, 7, 9]);
}

#[test]
fn mechanism_probe_specs_have_stable_labels() {
    let baseline = ProbeSpec::baseline();
    assert_eq!(baseline.sub_experiment, "baseline");
    assert_eq!(baseline.variant, "packed-32b");
    assert_eq!(baseline.prefetch_distance_lines, 0);
    assert_eq!(baseline.cache_state.as_str(), "reset-only");
    assert_eq!(baseline.timing_mode.as_str(), "per-read");

    let spec = ProbeSpec::prefetch(
        "prefetch-2-lines",
        2,
        CacheState::PreTouch,
        TimingMode::BatchScan,
    );

    assert_eq!(spec.sub_experiment, "prefetch");
    assert_eq!(spec.variant, "prefetch-2-lines");
    assert_eq!(spec.prefetch_distance_lines, 2);
    assert_eq!(spec.cache_state.as_str(), "pre-touch");
    assert_eq!(spec.timing_mode.as_str(), "batch-scan");
}

#[test]
fn other_probe_specs_carry_their_sub_experiment() {
    assert_eq!(ProbeSpec::layout("padded-64b", 0, CacheState::ResetOnly, TimingMode::PerRead).sub_experiment, "layout");
    assert_eq!(ProbeSpec::measurement("batch-scan-timing", 0, CacheState::ResetOnly, TimingMode::BatchScan).sub_experiment, "measurement");
    assert_eq!(ProbeSpec::cache_state("clflush", 0, CacheState::Clflush, TimingMode::PerRead).cache_state.as_str(), "clflush");
    let batch = ProbeSpec::poll_submit_batch(4);
    assert_eq!(batch.sub_experiment, "poll-submit-batch");
    assert_eq!(batch.variant, "configured");
    assert_eq!(batch.poll_submit_batch_n, 4);
}

#[test]
fn prefetch_stays_inside_the_record_storage() {
    assert_eq!(prefetch_target(0x1010, 0, 0x1000, 0x100), None);
    assert_eq!(prefetch_target(0x1010, 1, 0x1000, 0x100), Some(0x1040));
    assert_eq!(prefetch_target(0x10c0, 1, 0x1000, 0x100), None);
    assert_eq!(prefetch_target(0x1020, 2, 0x1000, 0x100), Some(0x1080));
}

#[test]
fn line_runs_restart_in_each_cacheline() {
    let mut line = None;
    let mut reads = 0_u64;
    assert_eq!(advance_line_run(&mut line, &mut reads, 0x1000), 1);
    assert_eq!(advance_line_run(&mut line, &mut reads, 0x1020), 2);
    assert_eq!(advance_line_run(&mut line, &mut reads, 0x1040), 1);
    assert_eq!(line, Some(0x1040));
}

#[test]
fn probe_trace_keeps_poll_windows_and_per_read_latencies() {
    let mut trace = IterationTrace::new(2);
    trace.record_submit(0, 10, 13);
    trace.record_submit(1, 20, 24);
    trace.begin_poll_event(1);
    trace.record_poll_read(0, 1, Some(30));
    trace.record_poll_read(1, 0, None);
    trace.finish_poll_event(1, 1, Some(50));

    let sample = trace.to_sample_trace(4);
    assert_eq!(sample.iteration_index, 4);
    assert!(!sample.points[0].poll_performed);
    assert_eq!(sample.points[1].polled_request_indices, vec![0, 1]);
    assert_eq!(sample.points[1].poll_latency_tsc_ticks, vec![30]);
    assert_eq!(sample.points[1].poll_window_tsc_ticks, Some(50));
    assert_eq!(sample.points[1].submit_start_from_marker_tsc, None);
    assert_eq!(sample.points[1].polled_status, 0);

    trace.reset();
    let cleared = trace.to_sample_trace(5);
    assert_eq!(cleared.points[1].submit_tsc_ticks, 0);
    assert!(!cleared.points[1].poll_performed);
}

#[test]
fn probe_accumulator_sorts_reads_and_builds_result() {
    let mut acc = ProbeAccumulator::new();
    acc.record_none(9);
    acc.record_visible(40, 0, 1);
    acc.record_visible(20, 1, 2);
    acc.record_poll_window(100, 3, 2);
    acc.record_outcome(4, CompletionOutcome { completed: 3, errors: 1 });
    acc.record_outcome(4, CompletionOutcome { completed: 5, errors: 0 });

    let layout = CompletionLayout {
        name: "packed-32b",
        stride_bytes: 32,
        alignment_bytes: 32,
        base_addr: 0x1_0060,
    };
    let result = acc.into_result(
        layout,
        4,
        1,
        DsaOperationClass::Memmove64,
        1_000_000_000,
        ProbeSpec::baseline(),
    );

    assert_eq!(result.benchmark, "submit_marker_mechanism");
    assert_eq!(result.operation_class, "memmove64");
    assert_eq!(result.submitted, 8);
    assert_eq!(result.completion_base_mod_64, 0x20);
    assert_eq!(result.completion_base_mod_4096, 0x60);
    assert_eq!(result.missing.min, 0);
    assert_eq!(result.missing.p999, 1);
    assert_eq!(result.none_poll_tsc_ticks.unwrap().median, 9);
    assert_eq!(result.visible_poll_tsc_ticks.unwrap().min, 20);
    assert_eq!(result.line_position_0_visible_tsc_ticks.unwrap().median, 40);
    assert_eq!(result.line_position_1_visible_tsc_ticks.unwrap().median, 20);
    assert_eq!(result.same_line_first_visible_tsc_ticks.unwrap().median, 40);
    assert_eq!(result.same_line_second_visible_tsc_ticks.unwrap().median, 20);
    assert_eq!(result.poll_window_reads.unwrap().median, 3);
    assert_eq!(result.prefetch_distance_lines, Some(0));
    assert!(result.baseline_comparison.is_none());
}

#[test]
fn baseline_comparison_reports_median_gaps() {
    let mut acc = ProbeAccumulator::new();
    acc.record_visible(200, 0, 1);
    acc.record_outcome(1, CompletionOutcome { completed: 1, errors: 0 });
    let layout = CompletionLayout { name: "packed-32b", stride_bytes: 32, alignment_bytes: 32, base_addr: 0 };
    let baseline = acc.into_result(layout, 1, 0, DsaOperationClass::Noop, 1_000_000_000, ProbeSpec::baseline());
    let summary = BaselineSummary::from_result(&baseline);
    assert_eq!(summary.label, "baseline/packed-32b");
    assert_eq!(summary.visible_poll_ns_median, Some(200));

    let mut probe = ProbeAccumulator::new();
    probe.record_visible(150, 0, 1);
    probe.record_outcome(1, CompletionOutcome { completed: 1, errors: 0 });
    let mut result = probe.into_result(layout, 1, 0, DsaOperationClass::Noop, 1_000_000_000, ProbeSpec::poll_submit_batch(2));
    summary.apply_to(&mut result);
    let comparison = result.baseline_comparison.unwrap();
    assert_eq!(comparison.baseline, "baseline/packed-32b");
    let gap = comparison.visible_poll_ns.unwrap();
    assert_eq!(gap.delta_ns, -50);
    assert_eq!(gap.current_ns, 150);
    assert_eq!(gap.baseline_ns, 200);
    assert!(comparison.none_poll_ns.is_none());
}

#[test]
fn median_gap_needs_a_nonzero_baseline() {
    let stats = Some(LatencyStats { min: 1, median: 5, mean: 5, p99: 9, p999: 9, samples: 3, sum: 15, sum_squares: 107 });
    assert!(median_gap(&stats, Some(0)).is_none());
    assert!(median_gap(&stats, None).is_none());
    assert!(median_gap(&None, Some(3)).is_none());
    assert_eq!(median_gap(&stats, Some(3)).unwrap().delta_ns, 2);
}

#[test]
fn poll_decision_answers_indices_past_the_burst() {
    assert!(!should_poll_after_submit(12, 10, 2, 3));
    assert!(should_poll_after_submit(13, 10, 2, 3));
    assert!(!should_poll_after_submit(1, 10, 2, 3));
}

#[test]
fn probe_plan_runs_the_baseline_first_and_the_padded_layout_last() {
    let plan = mechanism_probe_plan(&[1]);
    let labels: Vec<(&str, &str)> = plan.iter().map(|s| (s.sub_experiment, s.variant)).collect();
    assert_eq!(
        labels,
        vec![
            ("baseline", "packed-32b"),
            ("prefetch", "prefetch-1-lines"),
            ("prefetch", "prefetch-2-lines"),
            ("prefetch", "prefetch-4-lines"),
            ("measurement", "batch-scan-timing"),
            ("cache-state", "pre-touch"),
            ("cache-state", "clflush"),
            ("layout", "padded-64b"),
        ]
    );
    assert_eq!(plan[1].prefetch_distance_lines, 1);
    assert_eq!(plan[3].prefetch_distance_lines, 4);
    assert_eq!(plan[4].timing_mode, TimingMode::BatchScan);
    assert_eq!(plan[5].cache_state, CacheState::PreTouch);
    assert_eq!(plan[6].cache_state, CacheState::Clflush);

    let plan = mechanism_probe_plan(&[4, 1, 8]);
    assert_eq!(plan.len(), 10);
    assert_eq!((plan[1].sub_experiment, plan[1].variant, plan[1].poll_submit_batch_n), ("poll-submit-batch", "configured", 4));
    assert_eq!(plan[2].poll_submit_batch_n, 8);
    assert_eq!(plan[3].variant, "prefetch-1-lines");
    assert!(plan.iter().enumerate().all(|(k, s)| k == 1 || k == 2 || s.poll_submit_batch_n == 1));
}

#[test]
fn probe_point_holds_the_reads_of_its_poll_event() {
    let mut trace = IterationTrace::new(3);
    trace.reset();
    trace.record_submit(1, 100, 130);
    trace.begin_poll_event(1);
    trace.record_poll_read(4, 1, Some(9));
    trace.record_poll_read(5, 0, None);
    trace.finish_poll_event(1, 5, Some(40));
    let p = trace.sample_trace_point(1);
    assert_eq!(p.submit_index, 1);
    assert_eq!(p.submit_tsc_ticks, 30);
    assert_eq!(p.polled_request_indices, vec![4, 5]);
    assert_eq!(p.polled_statuses, vec![1, 0]);
    assert_eq!(p.poll_latency_tsc_ticks, vec![9]);
    assert_eq!(p.poll_count, 2);
    assert!(p.poll_performed);
    assert_eq!(p.visible_prefix_len, 5);
    assert_eq!(p.poll_window_tsc_ticks, Some(40));
    assert_eq!(p.submit_start_from_marker_tsc, None);
    assert_eq!(p.submit_end_from_marker_tsc, None);
    assert_eq!(p.polled_status, 0);
    assert_eq!(p.marker_status, 0);

    let q = trace.sample_trace_point(0);
    assert_eq!(q.poll_count, 0);
    assert!(!q.poll_performed);
    assert_eq!(q.polled_status, 0);
}
