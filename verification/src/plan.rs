//! What one run of the harness does, decided from its configuration before
//! any hardware is touched.

use vstd::prelude::*;

use crate::config::{BenchmarkConfig, BenchmarkKind, SubmitOnlyMode};

verus! {

/// One of the submit-path experiments, each selected by its own benchmark
/// name.
#[derive(Copy, Clone, Debug, PartialEq, Eq, Structural)]
pub enum BottleneckExperiment {
    SubmitAdmission,
    SubmitOccupancy,
    SubmitMarkerOverlap,
    SubmitMarkerMechanism,
    TrafficClassLadder,
    CompletionReusePolicy,
}

/// The experiment a benchmark name selects, if it names one.
pub open spec fn spec_bottleneck_experiment(benchmark: BenchmarkKind) -> Option<BottleneckExperiment> {
    match benchmark {
        BenchmarkKind::SubmitAdmission => Some(BottleneckExperiment::SubmitAdmission),
        BenchmarkKind::SubmitOccupancy => Some(BottleneckExperiment::SubmitOccupancy),
        BenchmarkKind::SubmitMarkerOverlap => Some(BottleneckExperiment::SubmitMarkerOverlap),
        BenchmarkKind::SubmitMarkerMechanism => Some(BottleneckExperiment::SubmitMarkerMechanism),
        BenchmarkKind::TrafficClassLadder => Some(BottleneckExperiment::TrafficClassLadder),
        BenchmarkKind::CompletionReusePolicy => Some(BottleneckExperiment::CompletionReusePolicy),
        _ => None,
    }
}

pub fn bottleneck_experiment(benchmark: BenchmarkKind) -> (e: Option<BottleneckExperiment>)
    ensures
        e == spec_bottleneck_experiment(benchmark),
{
    match benchmark {
        BenchmarkKind::SubmitAdmission => Some(BottleneckExperiment::SubmitAdmission),
        BenchmarkKind::SubmitOccupancy => Some(BottleneckExperiment::SubmitOccupancy),
        BenchmarkKind::SubmitMarkerOverlap => Some(BottleneckExperiment::SubmitMarkerOverlap),
        BenchmarkKind::SubmitMarkerMechanism => Some(BottleneckExperiment::SubmitMarkerMechanism),
        BenchmarkKind::TrafficClassLadder => Some(BottleneckExperiment::TrafficClassLadder),
        BenchmarkKind::CompletionReusePolicy => Some(BottleneckExperiment::CompletionReusePolicy),
        _ => None,
    }
}

/// What a DSA run measures.
impl BottleneckExperiment {
    /// The command-line name of the benchmark that runs this experiment.
    pub open spec fn spec_name(self) -> Seq<char> {
        match self {
            BottleneckExperiment::SubmitAdmission => "submit-admission"@,
            BottleneckExperiment::SubmitOccupancy => "submit-occupancy"@,
            BottleneckExperiment::SubmitMarkerOverlap => "submit-marker-overlap"@,
            BottleneckExperiment::SubmitMarkerMechanism => "submit-marker-mechanism"@,
            BottleneckExperiment::TrafficClassLadder => "traffic-class-ladder"@,
            BottleneckExperiment::CompletionReusePolicy => "completion-reuse-policy"@,
        }
    }
}

/// Each bottleneck benchmark runs the experiment of the same name, and
/// only the full run and the submit-only workloads run none; the DSA suite
/// of a bottleneck benchmark is that experiment.
pub proof fn law_benchmark_selects_its_experiment(benchmark: BenchmarkKind, submit_threads: usize)
    ensures
        spec_bottleneck_experiment(benchmark) matches Some(e) ==> e.spec_name()
            == benchmark.spec_name(),
        spec_bottleneck_experiment(benchmark) is None <==> (benchmark == BenchmarkKind::All
            || benchmark == BenchmarkKind::SubmitOnly),
        spec_dsa_suite(benchmark, submit_threads) matches DsaSuite::Bottleneck(e) ==> e.spec_name()
            == benchmark.spec_name(),
        benchmark == BenchmarkKind::SubmitOnly ==> spec_dsa_suite(benchmark, submit_threads)
            == DsaSuite::SubmitOnly,
{
}

#[derive(Copy, Clone, Debug, PartialEq, Eq, Structural)]
pub enum DsaSuite {
    /// Only the submit-only workloads of the configured mode.
    SubmitOnly,
    /// Only the named submit-path experiment.
    Bottleneck(BottleneckExperiment),
    /// The full latency and throughput suite; the multi-submitter memmove
    /// runs only when more than one submit thread is configured.
    Full { multithread: bool },
}

pub open spec fn spec_dsa_suite(benchmark: BenchmarkKind, submit_threads: usize) -> DsaSuite {
    if benchmark == BenchmarkKind::SubmitOnly {
        DsaSuite::SubmitOnly
    } else if let Some(e) = spec_bottleneck_experiment(benchmark) {
        DsaSuite::Bottleneck(e)
    } else {
        DsaSuite::Full { multithread: submit_threads > 1 }
    }
}

pub fn dsa_suite(benchmark: BenchmarkKind, submit_threads: usize) -> (s: DsaSuite)
    ensures
        s == spec_dsa_suite(benchmark, submit_threads),
{
    if benchmark == BenchmarkKind::SubmitOnly {
        DsaSuite::SubmitOnly
    } else {
        match bottleneck_experiment(benchmark) {
            Some(e) => DsaSuite::Bottleneck(e),
            None => DsaSuite::Full { multithread: submit_threads > 1 },
        }
    }
}

/// The decisions of one run.
#[derive(Copy, Clone, Debug, PartialEq, Eq, Structural)]
pub struct RunPlan {
    /// Pin the benchmark thread (to the configured core, else the current
    /// one).
    pub pin_thread: bool,
    /// Measure the software baselines.
    pub software_baselines: bool,
    /// Open the work queue and measure the accelerator.
    pub hardware: bool,
    /// The submit-only mode the DSA suite uses.
    pub submit_mode: SubmitOnlyMode,
    /// What the DSA suite measures (unused for IAX).
    pub dsa_suite: DsaSuite,
}

/// The plan of a run with configuration `c`: a thread is pinned when a
/// core was asked for or there is one submitter; the software baselines
/// run for software-only runs and for the full benchmark; software-only
/// runs touch no hardware; the configured submit-only mode applies only to
/// the submit-only benchmark, every other run uses the unloaded one.
pub open spec fn spec_run_plan(c: BenchmarkConfig) -> RunPlan {
    RunPlan {
        pin_thread: c.pin_core is Some || c.threads == 1,
        software_baselines: c.sw_only || c.benchmark == BenchmarkKind::All,
        hardware: !c.sw_only,
        submit_mode: if c.benchmark == BenchmarkKind::SubmitOnly {
            c.submit_mode
        } else {
            SubmitOnlyMode::Unloaded
        },
        dsa_suite: spec_dsa_suite(c.benchmark, c.threads),
    }
}

pub fn run_plan(config: &BenchmarkConfig) -> (p: RunPlan)
    ensures
        p == spec_run_plan(*config),
{
    RunPlan {
        pin_thread: config.pin_core.is_some() || config.threads == 1,
        software_baselines: config.sw_only || config.benchmark == BenchmarkKind::All,
        hardware: !config.sw_only,
        submit_mode: if config.benchmark == BenchmarkKind::SubmitOnly {
            config.submit_mode
        } else {
            SubmitOnlyMode::Unloaded
        },
        dsa_suite: dsa_suite(config.benchmark, config.threads),
    }
}

/// The label printed for a queue's mode.
pub fn wq_mode_label(dedicated: bool) -> (label: &'static str)
    ensures
        label@ == if dedicated {
            "dedicated"@
        } else {
            "shared"@
        },
{
    if dedicated {
        "dedicated"
    } else {
        "shared"
    }
}

} // verus!
