use hw_eval::config::{
    parse_completion_reuse_policies, parse_marker_bursts, parse_marker_poll_cadences,
    parse_marker_poll_offsets, parse_marker_positions, parse_sizes, parse_submit_bursts,
    parse_submit_occupancies, parse_traffic_classes, parse_traffic_windows, AccelKind,
    BenchmarkConfig, BenchmarkConfigError, BenchmarkKind, CompletionReusePolicy,
    DsaOperationClass, MarkerPollCadence, MarkerPosition, SubmitOnlyMode, TrafficClass,
    DEFAULT_COMPLETION_REUSE_WINDOW, DEFAULT_ITERATIONS, DEFAULT_MAX_CONCURRENCY,
    DEFAULT_SUBMIT_THREADS,
};

#[test]
fn benchmark_config_builder_uses_dsa_defaults() {
    let config = BenchmarkConfig::builder().build().unwrap();

    assert_eq!(config.accel, AccelKind::Dsa);
    assert_eq!(config.device, "/dev/dsa/wq0.0");
    assert_eq!(
        config.sizes,
        vec![64, 256, 1024, 4096, 16384, 65536, 262144, 1048576]
    );
    assert_eq!(config.iterations, DEFAULT_ITERATIONS);
    assert_eq!(config.max_concurrency, DEFAULT_MAX_CONCURRENCY);
    assert_eq!(config.benchmark, BenchmarkKind::All);
    assert_eq!(config.submit_mode, SubmitOnlyMode::All);
    assert_eq!(
        config.submit_bursts,
        vec![1, 2, 4, 8, 16, 32, 64, 128, 256, 512]
    );
    assert_eq!(
        config.submission_bottleneck.submit_occupancies,
        vec![0, 32, 64, 96, 112, 120, 124, 126, 127, 128, 129, 132, 136, 144, 160]
    );
    assert_eq!(
        config.submission_bottleneck.marker_bursts,
        vec![64, 96, 128, 160, 256]
    );
    assert_eq!(
        config.submission_bottleneck.marker_positions,
        vec![
            MarkerPosition::First,
            MarkerPosition::Half,
            MarkerPosition::Last
        ]
    );
    assert_eq!(
        config.submission_bottleneck.marker_poll_cadences,
        vec![
            MarkerPollCadence::Every(1),
            MarkerPollCadence::Every(4),
            MarkerPollCadence::Every(16),
            MarkerPollCadence::Every(64),
            MarkerPollCadence::Never,
        ]
    );
    assert_eq!(config.submission_bottleneck.marker_poll_offsets, vec![96]);
    assert_eq!(
        config.submission_bottleneck.traffic_windows,
        vec![1, 8, 32, 64, 96, 112, 120, 124, 128, 160, 256]
    );
    assert_eq!(
        config.submission_bottleneck.traffic_classes,
        vec![
            TrafficClass::SubmitOnly,
            TrafficClass::NoopCompletion,
            TrafficClass::Memmove64,
            TrafficClass::Memmove4k,
        ]
    );
    assert_eq!(
        config.submission_bottleneck.completion_reuse_policies,
        vec![
            CompletionReusePolicy::PackedScan,
            CompletionReusePolicy::PaddedRoundRobin,
            CompletionReusePolicy::PollOnly,
            CompletionReusePolicy::DelayedReset,
            CompletionReusePolicy::BatchHarvest,
        ]
    );
    assert_eq!(
        config.submission_bottleneck.completion_reuse_window,
        DEFAULT_COMPLETION_REUSE_WINDOW
    );
    assert_eq!(config.threads, DEFAULT_SUBMIT_THREADS);
    assert_eq!(
        config.submission_bottleneck.dsa_operation,
        DsaOperationClass::Noop
    );
    assert!(!config.sw_only);
    assert_eq!(config.pin_core, None);
    assert!(!config.cold);
    assert!(!config.json);
}

#[test]
fn benchmark_config_builder_uses_iax_default_device_when_device_omitted() {
    let config = BenchmarkConfig::builder()
        .accel(AccelKind::Iax)
        .build()
        .unwrap();

    assert_eq!(config.accel, AccelKind::Iax);
    assert_eq!(config.device, "/dev/iax/wq1.0");
}

#[test]
fn benchmark_config_builder_preserves_explicit_device_and_runtime_knobs() {
    let config = BenchmarkConfig::builder()
        .accel(AccelKind::Dsa)
        .device("/tmp/custom-wq".to_string())
        .sizes("64, 128,256".to_string())
        .iterations(7)
        .max_concurrency(4)
        .threads(5)
        .benchmark(BenchmarkKind::SubmitOnly)
        .submit_mode(SubmitOnlyMode::Mfence)
        .submit_bursts("2, 64".to_string())
        .submit_occupancies("0, 32,128".to_string())
        .marker_bursts("64,160".to_string())
        .marker_positions("first,last".to_string())
        .marker_poll_cadences("4,never".to_string())
        .marker_poll_offsets("96,112".to_string())
        .traffic_windows("1,128".to_string())
        .traffic_classes("submit-only,memmove64".to_string())
        .completion_reuse_policies("packed-scan,batch-harvest".to_string())
        .completion_reuse_window(64)
        .sw_only(true)
        .dsa_op(DsaOperationClass::Memmove64)
        .pin_core(3)
        .cold(true)
        .json(true)
        .build()
        .unwrap();

    assert_eq!(config.device, "/tmp/custom-wq");
    assert_eq!(config.sizes, vec![64, 128, 256]);
    assert_eq!(config.iterations, 7);
    assert_eq!(config.max_concurrency, 4);
    assert_eq!(config.threads, 5);
    assert_eq!(config.benchmark, BenchmarkKind::SubmitOnly);
    assert_eq!(config.submit_mode, SubmitOnlyMode::Mfence);
    assert_eq!(config.submit_bursts, vec![2, 64]);
    assert_eq!(
        config.submission_bottleneck.submit_occupancies,
        vec![0, 32, 128]
    );
    assert_eq!(config.submission_bottleneck.marker_bursts, vec![64, 160]);
    assert_eq!(
        config.submission_bottleneck.marker_positions,
        vec![MarkerPosition::First, MarkerPosition::Last]
    );
    assert_eq!(
        config.submission_bottleneck.marker_poll_cadences,
        vec![MarkerPollCadence::Every(4), MarkerPollCadence::Never]
    );
    assert_eq!(
        config.submission_bottleneck.marker_poll_offsets,
        vec![96, 112]
    );
    assert_eq!(config.submission_bottleneck.traffic_windows, vec![1, 128]);
    assert_eq!(
        config.submission_bottleneck.traffic_classes,
        vec![TrafficClass::SubmitOnly, TrafficClass::Memmove64]
    );
    assert_eq!(
        config.submission_bottleneck.completion_reuse_policies,
        vec![
            CompletionReusePolicy::PackedScan,
            CompletionReusePolicy::BatchHarvest,
        ]
    );
    assert_eq!(config.submission_bottleneck.completion_reuse_window, 64);
    assert!(config.sw_only);
    assert_eq!(
        config.submission_bottleneck.dsa_operation,
        DsaOperationClass::Memmove64
    );
    assert_eq!(config.pin_core, Some(3));
    assert!(config.cold);
    assert!(config.json);

    let admission = BenchmarkConfig::builder()
        .benchmark(BenchmarkKind::SubmitAdmission)
        .submit_bursts("64,128".to_string())
        .build()
        .unwrap();
    assert_eq!(admission.benchmark, BenchmarkKind::SubmitAdmission);
    assert_eq!(admission.submit_bursts, vec![64, 128]);
}

#[test]
fn parse_sizes_rejects_malformed_tokens_without_panicking() {
    let error = parse_sizes("64,abc,128").unwrap_err();

    match &error {
        BenchmarkConfigError::InvalidListEntry {
            flag,
            raw,
            token,
            source,
        } => {
            assert_eq!(*flag, "--sizes");
            assert_eq!(raw, "64,abc,128");
            assert_eq!(token, "abc");
            assert_eq!(source.to_string(), "invalid digit found in string");
        }
        other => panic!("unexpected error: {other:?}"),
    }

    let display = error.message();
    assert!(
        display.contains("abc") && display.contains("64,abc,128"),
        "invalid size display should preserve token and raw input: {display}"
    );

    let source = error
        .source()
        .expect("invalid numeric tokens should preserve ParseIntError as source");
    assert_eq!(source.to_string(), "invalid digit found in string");
}

#[test]
fn parse_sizes_rejects_empty_entries_and_zero_sizes() {
    assert!(matches!(
        parse_sizes("64,,128"),
        Err(BenchmarkConfigError::EmptyListToken { .. })
    ));
    assert!(matches!(
        parse_sizes("64,0,128"),
        Err(BenchmarkConfigError::ZeroListEntry { .. })
    ));
}

#[test]
fn parse_submit_bursts_rejects_malformed_tokens_without_panicking() {
    let error = parse_submit_bursts("1,nope,64").unwrap_err();

    match &error {
        BenchmarkConfigError::InvalidListEntry {
            flag,
            raw,
            token,
            source,
        } => {
            assert_eq!(*flag, "--submit-bursts");
            assert_eq!(raw, "1,nope,64");
            assert_eq!(token, "nope");
            assert_eq!(source.to_string(), "invalid digit found in string");
        }
        other => panic!("unexpected error: {other:?}"),
    }
}

#[test]
fn parse_submit_occupancies_allows_zero_and_rejects_malformed_tokens() {
    assert_eq!(
        parse_submit_occupancies("0, 32,128").unwrap(),
        vec![0, 32, 128]
    );

    let error = parse_submit_occupancies("0,nope,128").unwrap_err();
    match &error {
        BenchmarkConfigError::InvalidListEntry {
            flag,
            raw,
            token,
            source,
        } => {
            assert_eq!(*flag, "--submit-occupancies");
            assert_eq!(raw, "0,nope,128");
            assert_eq!(token, "nope");
            assert_eq!(source.to_string(), "invalid digit found in string");
        }
        other => panic!("unexpected error: {other:?}"),
    }

    assert!(matches!(
        parse_submit_occupancies("0,,128"),
        Err(BenchmarkConfigError::EmptyListToken { .. })
    ));
}

#[test]
fn parse_bottleneck_experiment_lists_validate_tokens() {
    assert_eq!(parse_marker_bursts("64, 128").unwrap(), vec![64, 128]);
    assert_eq!(
        parse_marker_positions("first, HALF,last").unwrap(),
        vec![
            MarkerPosition::First,
            MarkerPosition::Half,
            MarkerPosition::Last
        ]
    );
    assert_eq!(MarkerPosition::First.to_index(160), 0);
    assert_eq!(MarkerPosition::Half.to_index(160), 80);
    assert_eq!(MarkerPosition::Last.to_index(160), 159);
    assert_eq!(
        parse_marker_poll_cadences("1, 16, never").unwrap(),
        vec![
            MarkerPollCadence::Every(1),
            MarkerPollCadence::Every(16),
            MarkerPollCadence::Never,
        ]
    );
    assert_eq!(parse_traffic_windows("1,128").unwrap(), vec![1, 128]);
    assert_eq!(
        parse_marker_poll_offsets("0,96,112").unwrap(),
        vec![0, 96, 112]
    );
    assert_eq!(
        parse_traffic_classes("submit-only,memmove4k").unwrap(),
        vec![TrafficClass::SubmitOnly, TrafficClass::Memmove4k]
    );
    assert_eq!(
        parse_completion_reuse_policies("packed-scan,delayed-reset").unwrap(),
        vec![
            CompletionReusePolicy::PackedScan,
            CompletionReusePolicy::DelayedReset,
        ]
    );

    assert!(matches!(
        parse_marker_poll_cadences("0"),
        Err(BenchmarkConfigError::ZeroListEntry {
            flag: "--marker-poll-cadences",
            ..
        })
    ));
    assert!(matches!(
        parse_marker_positions("first,nope"),
        Err(BenchmarkConfigError::InvalidEnumEntry {
            flag: "--marker-positions",
            ..
        })
    ));
    assert!(matches!(
        parse_traffic_classes("submit-only,nope"),
        Err(BenchmarkConfigError::InvalidEnumEntry {
            flag: "--traffic-classes",
            ..
        })
    ));
    assert!(matches!(
        parse_completion_reuse_policies("packed-scan,nope"),
        Err(BenchmarkConfigError::InvalidEnumEntry {
            flag: "--completion-reuse-policies",
            ..
        })
    ));
}

#[test]
fn benchmark_config_rejects_zero_submit_threads() {
    let error = BenchmarkConfig::builder().threads(0).build().unwrap_err();
    assert!(matches!(error, BenchmarkConfigError::ZeroThreads));
    assert_eq!(error.message(), "--threads must be greater than zero");
}

#[test]
fn submit_only_benchmark_is_dsa_only() {
    let error = BenchmarkConfig::builder()
        .accel(AccelKind::Iax)
        .benchmark(BenchmarkKind::SubmitOnly)
        .build()
        .unwrap_err();

    assert!(matches!(
        error,
        BenchmarkConfigError::UnsupportedBenchmark { .. }
    ));
    assert_eq!(
        error.message(),
        "--benchmark submit-only is not supported for --accel iax"
    );
}

#[test]
fn submit_admission_benchmark_is_dsa_only() {
    let error = BenchmarkConfig::builder()
        .accel(AccelKind::Iax)
        .benchmark(BenchmarkKind::SubmitAdmission)
        .build()
        .unwrap_err();

    assert!(matches!(
        error,
        BenchmarkConfigError::UnsupportedBenchmark { .. }
    ));
    assert_eq!(
        error.message(),
        "--benchmark submit-admission is not supported for --accel iax"
    );
}

#[test]
fn submit_occupancy_benchmark_is_dsa_only() {
    let error = BenchmarkConfig::builder()
        .accel(AccelKind::Iax)
        .benchmark(BenchmarkKind::SubmitOccupancy)
        .build()
        .unwrap_err();

    assert!(matches!(
        error,
        BenchmarkConfigError::UnsupportedBenchmark { .. }
    ));
    assert_eq!(
        error.message(),
        "--benchmark submit-occupancy is not supported for --accel iax"
    );
}

#[test]
fn remaining_bottleneck_experiment_benchmarks_are_dsa_only() {
    for (benchmark, name) in [
        (BenchmarkKind::SubmitMarkerOverlap, "submit-marker-overlap"),
        (
            BenchmarkKind::SubmitMarkerMechanism,
            "submit-marker-mechanism",
        ),
        (BenchmarkKind::TrafficClassLadder, "traffic-class-ladder"),
        (
            BenchmarkKind::CompletionReusePolicy,
            "completion-reuse-policy",
        ),
    ] {
        let error = BenchmarkConfig::builder()
            .accel(AccelKind::Iax)
            .benchmark(benchmark)
            .build()
            .unwrap_err();

        assert!(matches!(
            error,
            BenchmarkConfigError::UnsupportedBenchmark { .. }
        ));
        assert_eq!(
            error.message(),
            format!("--benchmark {name} is not supported for --accel iax")
        );
    }
}

#[test]
fn value_names_are_read_back() {
    for p in [MarkerPosition::First, MarkerPosition::Half, MarkerPosition::Last] {
        assert_eq!(parse_marker_positions(p.as_str()).unwrap(), vec![p]);
        assert_eq!(parse_marker_positions(&p.as_str().to_uppercase()).unwrap(), vec![p]);
    }
    for c in [
        TrafficClass::SubmitOnly,
        TrafficClass::NoopCompletion,
        TrafficClass::Memmove64,
        TrafficClass::Memmove4k,
    ] {
        assert_eq!(parse_traffic_classes(c.as_str()).unwrap(), vec![c]);
    }
    for r in [
        CompletionReusePolicy::PackedScan,
        CompletionReusePolicy::PaddedRoundRobin,
        CompletionReusePolicy::PollOnly,
        CompletionReusePolicy::DelayedReset,
        CompletionReusePolicy::BatchHarvest,
    ] {
        assert_eq!(parse_completion_reuse_policies(r.as_str()).unwrap(), vec![r]);
    }
}

#[test]
fn joined_name_lists_read_back_in_any_case_and_padding() {
    assert_eq!(
        parse_marker_positions("first, HALF,last").unwrap(),
        vec![MarkerPosition::First, MarkerPosition::Half, MarkerPosition::Last]
    );
    assert_eq!(
        parse_traffic_classes(" Memmove64 ,NOOP-completion\t").unwrap(),
        vec![TrafficClass::Memmove64, TrafficClass::NoopCompletion]
    );
    assert_eq!(
        parse_completion_reuse_policies("poll-only,Batch-Harvest , packed-scan").unwrap(),
        vec![
            CompletionReusePolicy::PollOnly,
            CompletionReusePolicy::BatchHarvest,
            CompletionReusePolicy::PackedScan
        ]
    );
}
