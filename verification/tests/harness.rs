use hw_eval::submit::wq_is_dedicated;
use hw_eval::window::{status_action, thread_window, SlidingWindow, StatusAction};
use hw_eval::mechanism::page_touch_offsets;
use hw_eval::config::BenchmarkKind;
use hw_eval::plan::{run_plan, BottleneckExperiment, DsaSuite};
use hw_eval::pmc::{rdpmc_counter, seqlock_cycles, sign_extend_pmc};
use hw_eval::config::TrafficClass;
use hw_eval::ladder::TrafficLadderAccumulator;
use hw_eval::common::fill_descriptor;
use hw_eval::config::DsaOperationClass;
use hw_eval::dsa::{DsaHwDesc, DSA_OPCODE_MEMMOVE, DSA_OPCODE_NOOP};
use hw_eval::admission::AdmissionAccumulator;
use hw_eval::common::{
    completion_timeout_tsc, needs_rescan, scan_visible_completions, timeout_check_due,
    unseen_slots, CompletionOutcome,
};
use hw_eval::config::{BenchmarkConfig, BenchmarkConfigError, CompletionReusePolicy, MarkerPollCadence, SubmitOnlyMode};
use hw_eval::error::HwEvalError;
use hw_eval::occupancy::{
    extra_trace_point, gap_elapsed, prefill_completion_trace_point, submitted_count,
    trace_outcome, GapAction, SubmitGap, DRAIN_SENTINEL_MAX_SPINS,
};
use hw_eval::report::LatencyResult;
use hw_eval::reuse::{reuse_scan_step, ReuseAction, ReuseStep,
    completion_reuse_timed_out, drain_error, harvest_batch, next_round_robin_slot,
    reset_ticks_per_completion, reuse_target, CompletionReuseAccumulator,
    CompletionReuseMeasurement, PollOnlyWindow,
};
use hw_eval::stats::{compute_stats, ops_per_second, optional_stats, stats_from_values, LatencyStats};
use hw_eval::submit::{
    cycles_to_ns, numa_node_entry, parse_device_numa_node, parse_wq_mode, poll_status_step,
    tsc_freq_from_interval, PollStep, WqPortal, POLL_MAX_SPINS,
};
use hw_eval::submit_only::{should_poll_marker, submit_workloads, SubmitOnlyMeasureMode};
use hw_eval::sw::sw_memcpy;

fn stats(value: u64) -> LatencyStats {
    LatencyStats {
        min: value,
        median: value,
        mean: value,
        p99: value,
        p999: value,
        samples: 1,
        sum: value as u128,
        sum_squares: (value as u128) * (value as u128),
    }
}

#[test]
fn hw_eval_config_error_preserves_source_chain() {
    let error = HwEvalError::config(
        BenchmarkConfig::builder()
            .sizes("64,abc".to_string())
            .build()
            .unwrap_err(),
    );

    let config_source = error
        .config_source()
        .expect("HwEvalError::Config should expose BenchmarkConfigError as source");
    assert!(
        config_source.source().is_some(),
        "BenchmarkConfigError::InvalidSize should expose ParseIntError as source"
    );
}

#[test]
fn open_wq_error_names_the_operation_and_hint() {
    let error = HwEvalError::open_wq(
        hw_eval::config::AccelKind::Iax,
        "/dev/iax/wq1.0".to_string(),
        std::io::Error::from(std::io::ErrorKind::NotFound),
    );
    assert!(error.config_source().is_none());
    match error {
        HwEvalError::OpenWq { accelerator, device, operation, hint, .. } => {
            assert_eq!(accelerator, "iax");
            assert_eq!(device, "/dev/iax/wq1.0");
            assert_eq!(operation, "open_wq");
            assert_eq!(hint, "need CAP_SYS_RAWIO or run via dsa_launcher");
        }
        _ => panic!("expected an open error"),
    }
}

#[test]
fn zero_threads_error_has_no_source() {
    let error = BenchmarkConfig::builder().threads(0).build().unwrap_err();
    assert!(matches!(error, BenchmarkConfigError::ZeroThreads));
    assert!(error.source().is_none());
}

#[test]
fn submit_timer_rows_preserve_legacy_alias_fields() {
    let tsc = LatencyResult::with_tsc_ticks(
        "submit_only_unloaded".to_string(),
        "tsc",
        64,
        stats(10),
        stats(20),
    );
    assert_eq!(tsc.cycles.median, 10);
    assert_eq!(tsc.ns.median, 20);
    assert_eq!(tsc.tsc_ticks.as_ref().map(|s| s.median), Some(10));
    assert!(tsc.wall_ns.is_none());
    assert!(tsc.core_cycles.is_none());

    let wall = LatencyResult::with_wall_ns("submit_only_unloaded".to_string(), "wall", 64, stats(30));
    assert_eq!(wall.cycles.median, 30);
    assert_eq!(wall.ns.median, 30);
    assert_eq!(wall.wall_ns.as_ref().map(|s| s.median), Some(30));
    assert!(wall.tsc_ticks.is_none());
    assert!(wall.core_cycles.is_none());

    let core =
        LatencyResult::with_core_cycles("submit_only_unloaded".to_string(), "rdpmc", 64, stats(40));
    assert_eq!(core.cycles.median, 40);
    assert_eq!(core.ns.median, 40);
    assert_eq!(core.core_cycles.as_ref().map(|s| s.median), Some(40));
    assert!(core.tsc_ticks.is_none());
    assert!(core.wall_ns.is_none());
}

#[test]
fn basic_latency_rows_have_no_timer() {
    let row = LatencyResult::basic("noop".to_string(), Some(64), None, stats(1), stats(2));
    assert_eq!(row.size, Some(64));
    assert!(row.timer.is_none());
    assert_eq!(row.ns.median, 2);
}

#[test]
fn stats_follow_the_sorted_positions() {
    let sorted: Vec<u64> = (1..=1000).collect();
    let st = compute_stats(&sorted);
    assert_eq!(st.min, 1);
    assert_eq!(st.median, 501);
    assert_eq!(st.mean, 500);
    assert_eq!(st.p99, 991);
    assert_eq!(st.p999, 1000);

    assert_eq!(st.samples, 1000);
    assert_eq!(st.sum, 500_500);

    let st = stats_from_values(vec![30, 10, 20]);
    assert_eq!(st.sum_squares, 1_400);
    assert_eq!(st.min, 10);
    assert_eq!(st.median, 20);
    assert_eq!(st.mean, 20);
    assert_eq!(st.p99, 30);
    assert_eq!(st.p999, 30);
    assert!(optional_stats(Vec::new()).is_none());
}

#[test]
fn cycle_conversions_and_rates() {
    assert_eq!(cycles_to_ns(2_000, 2_000_000_000), 1_000);
    assert_eq!(cycles_to_ns(3, 1_000_000_000), 3);
    assert_eq!(ops_per_second(10, 1_000, 1_000_000), 10_000);
    assert_eq!(ops_per_second(10, 0, 1_000_000), 0);
    assert_eq!(tsc_freq_from_interval(100, 20_000_100, 10_000_000), 2_000_000_000);
    assert_eq!(completion_timeout_tsc(2_000_000_000), 2_000_000);
}

#[test]
fn wq_mode_text_is_trimmed_and_matched_exactly() {
    assert_eq!(parse_wq_mode("dedicated\n"), Some(true));
    assert_eq!(parse_wq_mode("  shared "), Some(false));
    assert_eq!(parse_wq_mode("Dedicated"), None);
    assert_eq!(parse_wq_mode(""), None);
    let portal = WqPortal::new(0x7000, false);
    assert!(!portal.is_dedicated());
    assert_eq!(portal.portal_addr(), 0x7000);
}

#[test]
fn poll_steps_stop_on_status_or_timeout() {
    assert_eq!(poll_status_step(0x81, 0, 5, POLL_MAX_SPINS), PollStep::Done(0x01));
    assert_eq!(poll_status_step(0, 0, 5, POLL_MAX_SPINS), PollStep::Spin(6));
    assert_eq!(poll_status_step(0, 0, POLL_MAX_SPINS - 1, POLL_MAX_SPINS), PollStep::TimedOut);
    assert_eq!(poll_status_step(0, 0, 0, DRAIN_SENTINEL_MAX_SPINS), PollStep::Spin(1));
}

#[test]
fn numa_nodes_from_sysfs_names_and_text() {
    assert_eq!(numa_node_entry("node1"), Some(Some(1)));
    assert_eq!(numa_node_entry("nodex"), Some(None));
    assert_eq!(numa_node_entry("cpufreq"), None);
    assert_eq!(parse_device_numa_node("0\n"), Some(0));
    assert_eq!(parse_device_numa_node("-1\n"), Some(-1));
    assert_eq!(parse_device_numa_node("none"), None);
}

#[test]
fn completion_counting_tracks_seen_slots() {
    let mut outcome = CompletionOutcome::new();
    let mut seen = unseen_slots(3);
    assert!(outcome.record_unseen(&mut seen, 1, 0x01));
    assert!(!outcome.record_unseen(&mut seen, 0, 0x00));
    assert!(outcome.record_unseen(&mut seen, 2, 0x05));
    assert_eq!(seen, vec![false, true, true]);
    assert_eq!(outcome.completed, 2);
    assert_eq!(outcome.errors, 1);
    assert!(needs_rescan(&outcome, 3));

    let scanned = scan_visible_completions(&[1, 0, 3, 0x81]);
    assert_eq!(scanned.completed, 3);
    assert_eq!(scanned.errors, 1);
    assert!(timeout_check_due(512));
    assert!(!timeout_check_due(513));
}

#[test]
fn admission_accumulator_summarises_bursts() {
    let mut acc = AdmissionAccumulator::new(2);
    acc.record_iteration(8, CompletionOutcome { completed: 8, errors: 0 }, 400, 2_000_000_000);
    acc.record_iteration(8, CompletionOutcome { completed: 6, errors: 1 }, 600, 2_000_000_000);
    let result = acc.into_result(8);
    assert_eq!(result.benchmark, "submit_admission_distinct");
    assert_eq!(result.submitted, 8);
    assert_eq!(result.missing.p999, 2);
    assert_eq!(result.errors.p999, 1);
    assert_eq!(result.submit_ns.min, 200);
}

#[test]
fn reuse_policies_decide_batches_and_slots() {
    assert_eq!(reuse_target(10, 32), 32);
    assert_eq!(reuse_target(100, 32), 100);
    assert_eq!(harvest_batch(CompletionReusePolicy::DelayedReset, 32), Some(32));
    assert_eq!(harvest_batch(CompletionReusePolicy::BatchHarvest, 32), Some(16));
    assert_eq!(harvest_batch(CompletionReusePolicy::BatchHarvest, 4), Some(4));
    assert_eq!(harvest_batch(CompletionReusePolicy::PackedScan, 4), None);
    assert_eq!(next_round_robin_slot(3, 4), 0);
    assert_eq!(next_round_robin_slot(1, 4), 2);
    assert_eq!(reset_ticks_per_completion(100, 4), 25);
    assert!(completion_reuse_timed_out(1_000_000_000));
    assert!(!completion_reuse_timed_out(999_999_999));
    assert!(drain_error(None));
    assert!(drain_error(Some(0x05)));
    assert!(!drain_error(Some(0x81)));
}

#[test]
fn reuse_accumulator_counts_polls_and_harvests() {
    let mut acc = CompletionReuseAccumulator::new(2, 1_000_000_000);
    assert_eq!(acc.record_slot_poll(0, 5), None);
    assert_eq!(acc.record_slot_poll(1, 7), Some(1));
    assert_eq!(acc.record_slot_poll(0x05, 9), Some(0x05));
    acc.record_reset_to_submit(11);
    assert!(acc.target_reached(2));
    assert_eq!(acc.polls, 3);
    let m = CompletionReuseMeasurement::from_run(acc, 4, 1_000, 1);
    assert_eq!(m.completed, 2);
    assert_eq!(m.missing, 2);
    assert_eq!(m.errors, 2);
    assert_eq!(m.harvest_ns, vec![7, 9]);
    assert_eq!(m.reset_to_submit_ns, vec![11]);
    assert_eq!(m.ops_per_sec, 2_000_000);
}

#[test]
fn poll_only_window_refills_after_every_slot_completes() {
    let mut window = PollOnlyWindow::new(2);
    window.mark_completed(1);
    assert!(!window.needs_refill(false));
    window.mark_completed(0);
    assert!(window.needs_refill(false));
    assert!(!window.needs_refill(true));
    window.refill();
    assert_eq!(window.outstanding, 2);
    assert_eq!(window.seen, vec![false, false]);
}

#[test]
fn occupancy_trace_points() {
    assert_eq!(submitted_count(4, None), 5);
    assert_eq!(submitted_count(4, Some(3)), 5);
    assert_eq!(submitted_count(4, Some(9)), 9);
    assert_eq!(SubmitGap { black_box_iters: 3, target_tsc_ticks: 7 }.action(), GapAction::WaitTsc(7));
    assert_eq!(SubmitGap { black_box_iters: 3, target_tsc_ticks: 0 }.action(), GapAction::BlackBox(3));
    assert_eq!(SubmitGap { black_box_iters: 0, target_tsc_ticks: 0 }.action(), GapAction::NoGap);
    assert!(gap_elapsed(u64::MAX - 1, 3, 5));
    assert!(!gap_elapsed(10, 12, 5));

    let point = extra_trace_point(1, 5, 300, 3_000_000_000);
    assert_eq!(point.submit_ns, 100);

    let prefill = prefill_completion_trace_point(
        2,
        1_000,
        1_300,
        1_900,
        4,
        CompletionOutcome { completed: 3, errors: 1 },
        1_000_000_000,
    );
    assert_eq!(prefill.prefill_submit_tsc_ticks, 300);
    assert_eq!(prefill.prefill_completion_tsc_ticks, 900);
    assert_eq!(prefill.post_submit_completion_tsc_ticks, 600);
    assert_eq!(prefill.missing, 1);

    let outcome = trace_outcome(2, 5, CompletionOutcome { completed: 5, errors: 0 }, 0xff);
    assert!(!outcome.drain_sentinel_completed);
    assert_eq!(outcome.missing, 0);
    assert_eq!(outcome.hardware_observed, 5);
}

#[test]
fn submit_only_modes_pick_their_workloads() {
    let all = submit_workloads(SubmitOnlyMode::All);
    let names = all.iter().map(|w| w.name).collect::<Vec<_>>();
    assert_eq!(names, vec!["submit_only_unloaded", "submit_only_mfence", "submit_only_pressure_ramp"]);
    assert!(all[0].needs_sample_drain());
    assert!(all[1].needs_sample_drain());
    assert!(all[2].needs_final_drain());
    assert!(all[1].fence_after_submit(0, 2));
    assert!(!all[1].fence_after_submit(1, 2));
    assert_eq!(submit_workloads(SubmitOnlyMode::Mfence)[0].mode, SubmitOnlyMeasureMode::MfenceBetweenSubmits);
    assert!(should_poll_marker(MarkerPollCadence::Every(4), 8));
    assert!(!should_poll_marker(MarkerPollCadence::Every(4), 6));
    assert!(!should_poll_marker(MarkerPollCadence::Never, 0));
}

#[test]
fn sw_memcpy_copies_into_the_front() {
    let mut dst = [9_u8; 6];
    sw_memcpy(&mut dst, &[1, 2, 3]);
    assert_eq!(dst, [1, 2, 3, 9, 9, 9]);
}

#[test]
fn cycle_and_ns_summaries_share_positions() {
    let (cycles, ns) = hw_eval::stats::cycle_and_ns_stats(vec![3_000, 1_000, 2_000], 2_000_000_000);
    assert_eq!(cycles.min, 1_000);
    assert_eq!(cycles.median, 2_000);
    assert_eq!(ns.min, 500);
    assert_eq!(ns.p999, 1_500);
    assert_eq!(ns.sum, 3_000);
}

#[test]
fn run_plans_follow_the_benchmark() {

    let config = BenchmarkConfig::builder().build().unwrap();
    let plan = run_plan(&config);
    assert!(plan.pin_thread);
    assert!(plan.software_baselines);
    assert!(plan.hardware);
    assert_eq!(plan.submit_mode, SubmitOnlyMode::Unloaded);
    assert_eq!(plan.dsa_suite, DsaSuite::Full { multithread: false });

    let config = BenchmarkConfig::builder()
        .benchmark(BenchmarkKind::SubmitOnly)
        .submit_mode(SubmitOnlyMode::Mfence)
        .threads(4)
        .build()
        .unwrap();
    let plan = run_plan(&config);
    assert!(!plan.pin_thread);
    assert!(!plan.software_baselines);
    assert_eq!(plan.submit_mode, SubmitOnlyMode::Mfence);
    assert_eq!(plan.dsa_suite, DsaSuite::SubmitOnly);

    let config = BenchmarkConfig::builder()
        .benchmark(BenchmarkKind::CompletionReusePolicy)
        .sw_only(true)
        .build()
        .unwrap();
    let plan = run_plan(&config);
    assert!(!plan.hardware);
    assert!(plan.software_baselines);
    assert_eq!(
        plan.dsa_suite,
        DsaSuite::Bottleneck(BottleneckExperiment::CompletionReusePolicy)
    );
}

#[test]
fn pmc_reads_sign_extend_and_retry() {

    assert_eq!(sign_extend_pmc(0xffff_ffff_ffff, 48), -1);
    assert_eq!(sign_extend_pmc(0x7fff_ffff_ffff, 48), 0x7fff_ffff_ffff);
    assert_eq!(sign_extend_pmc(5, 64), 5);
    assert_eq!(rdpmc_counter(0), None);
    assert_eq!(rdpmc_counter(3), Some(2));
    assert_eq!(seqlock_cycles(2, 100, 5, 2), Some(105));
    assert_eq!(seqlock_cycles(3, 100, 5, 3), None);
    assert_eq!(seqlock_cycles(2, 100, 5, 4), None);
}

#[test]
fn traffic_ladder_accumulates_both_kinds_of_burst() {

    let mut acc = TrafficLadderAccumulator::new(2);
    acc.record_completed(4, 100, 300, 700, CompletionOutcome { completed: 3, errors: 0 }, 1_000_000_000);
    let result = acc.into_result(TrafficClass::Memmove64, 4);
    assert_eq!(result.benchmark, "traffic_class_ladder");
    assert_eq!(result.operation_size, 64);
    assert_eq!(result.submit_tsc_ticks.median, 200);
    assert_eq!(result.completion_visible_tsc_ticks.unwrap().median, 400);
    assert_eq!(result.missing.unwrap().median, 1);
    assert_eq!(result.ops_per_sec.median, 6_666_666);

    let mut acc = TrafficLadderAccumulator::new(1);
    acc.record_submit_only(8, 400, 2_000_000_000);
    let result = acc.into_result(TrafficClass::SubmitOnly, 8);
    assert_eq!(result.operation_size, 0);
    assert!(result.completion_visible_tsc_ticks.is_none());
    assert!(result.completed.is_none());
    assert_eq!(result.submit_ns.median, 200);
}

#[test]
fn fill_descriptor_places_each_slot_in_its_own_region() {

    let mut desc = DsaHwDesc::default();
    fill_descriptor(&mut desc, 0x9000, 0x1000, 0x5000, 3, 64, DsaOperationClass::Memmove64);
    assert_eq!(desc.opcode(), DSA_OPCODE_MEMMOVE);
    assert_eq!(desc.src_addr(), 0x1000 + 192);
    assert_eq!(desc.dst_addr(), 0x5000 + 192);
    assert_eq!(desc.xfer_size(), 64);
    assert_eq!(desc.completion_addr(), 0x9000);

    fill_descriptor(&mut desc, 0x9020, 0x1000, 0x5000, 1, 0, DsaOperationClass::Noop);
    assert_eq!(desc.opcode(), DSA_OPCODE_NOOP);
    assert_eq!(desc.flags(), 0x000c);
    assert_eq!(desc.completion_addr(), 0x9020);
}

#[test]
fn throughput_status_actions() {
    assert_eq!(status_action(0x01, false), StatusAction::Complete);
    assert_eq!(status_action(0x03, false), StatusAction::RetryAfterFault);
    assert_eq!(status_action(0x05, false), StatusAction::Fail);
    assert_eq!(status_action(0x05, true), StatusAction::Complete);
    assert_eq!(status_action(0x13, true), StatusAction::Fail);
}

#[test]
fn sliding_window_issues_exactly_the_target() {
    let mut window = SlidingWindow::new(2, 3);
    let mut resubmits = 0;
    let mut reaped = Vec::new();
    while !window.is_done() {
        reaped.push(window.slot);
        if window.record_completion() {
            resubmits += 1;
        }
    }
    assert_eq!(reaped, vec![0, 1, 0]);
    assert_eq!(resubmits, 1);
    assert_eq!(window.issued, 3);
    assert_eq!(window.completed, 3);
}

#[test]
fn thread_windows_share_the_concurrency() {
    let windows = (0..3).map(|t| thread_window(8, 3, t)).collect::<Vec<_>>();
    assert_eq!(windows, vec![3, 3, 2]);
    assert_eq!(windows.iter().sum::<usize>(), 8);
}

#[test]
fn page_touch_offsets_cover_every_page_and_the_end() {
    assert_eq!(page_touch_offsets(0), Vec::<usize>::new());
    assert_eq!(page_touch_offsets(10), vec![0, 9]);
    assert_eq!(page_touch_offsets(8192), vec![0, 4096, 8191]);
    assert_eq!(page_touch_offsets(8193), vec![0, 4096, 8192, 8192]);
}

#[test]
fn only_a_shared_mode_makes_a_queue_shared() {
    assert!(!wq_is_dedicated(Some("shared\n")));
    assert!(!wq_is_dedicated(Some("  shared")));
    assert!(wq_is_dedicated(Some("dedicated\n")));
    assert!(wq_is_dedicated(Some("unknown")));
    assert!(wq_is_dedicated(Some("")));
    assert!(wq_is_dedicated(None));
    let p = WqPortal::from_mode(0x1000, Some("shared"));
    assert!(!p.is_dedicated());
    assert!(!p.is_dedicated());
    assert_eq!(p.portal_addr(), 0x1000);
    assert!(WqPortal::from_mode(0x2000, None).is_dedicated());
}

#[test]
fn reuse_scans_follow_their_policy() {
    let step = |p, h, held, t| reuse_scan_step(p, 32, h, held, t);
    assert_eq!(step(CompletionReusePolicy::PaddedRoundRobin, false, 0, false), ReuseStep { action: ReuseAction::Skip, end_scan: true });
    assert_eq!(step(CompletionReusePolicy::PaddedRoundRobin, true, 0, false), ReuseStep { action: ReuseAction::ResubmitNow, end_scan: true });
    assert_eq!(step(CompletionReusePolicy::PackedScan, false, 0, true), ReuseStep { action: ReuseAction::Skip, end_scan: false });
    assert_eq!(step(CompletionReusePolicy::PackedScan, true, 0, false), ReuseStep { action: ReuseAction::ResubmitNow, end_scan: false });
    assert_eq!(step(CompletionReusePolicy::PackedScan, true, 0, true), ReuseStep { action: ReuseAction::ResubmitNow, end_scan: true });
    assert_eq!(step(CompletionReusePolicy::PollOnly, true, 0, true), ReuseStep { action: ReuseAction::MarkSeen, end_scan: true });
    assert_eq!(step(CompletionReusePolicy::BatchHarvest, true, 14, false), ReuseStep { action: ReuseAction::HoldForBatch, end_scan: false });
    assert_eq!(step(CompletionReusePolicy::BatchHarvest, true, 15, false), ReuseStep { action: ReuseAction::HoldForBatch, end_scan: true });
    assert_eq!(step(CompletionReusePolicy::DelayedReset, true, 15, false), ReuseStep { action: ReuseAction::HoldForBatch, end_scan: false });
    assert_eq!(step(CompletionReusePolicy::DelayedReset, true, 31, false), ReuseStep { action: ReuseAction::HoldForBatch, end_scan: true });
    assert_eq!(reuse_scan_step(CompletionReusePolicy::BatchHarvest, 4, true, 3, false).end_scan, true);
}
