//! Rows of the latency report.

use vstd::prelude::*;

use crate::stats::LatencyStats;

verus! {

/// One latency row: a benchmark at one size or batch size, in cycles and
/// nanoseconds, and, for the submit timers, which timer measured it and
/// the same samples under that timer's own name.
#[derive(Clone, Debug, PartialEq, Eq)]
pub struct LatencyResult {
    pub benchmark: String,
    pub size: Option<usize>,
    pub batch_size: Option<usize>,
    pub cycles: LatencyStats,
    pub ns: LatencyStats,
    pub timer: Option<&'static str>,
    pub tsc_ticks: Option<LatencyStats>,
    pub wall_ns: Option<LatencyStats>,
    pub core_cycles: Option<LatencyStats>,
}

impl LatencyResult {
    /// A row without a submit timer.
    pub fn basic(
        benchmark: String,
        size: Option<usize>,
        batch_size: Option<usize>,
        cycles: LatencyStats,
        ns: LatencyStats,
    ) -> (r: Self)
        ensures
            r.benchmark@ == benchmark@,
            r.size == size,
            r.batch_size == batch_size,
            r.cycles == cycles,
            r.ns == ns,
            r.timer is None,
            r.tsc_ticks is None,
            r.wall_ns is None,
            r.core_cycles is None,
    {
        LatencyResult {
            benchmark,
            size,
            batch_size,
            cycles,
            ns,
            timer: None,
            tsc_ticks: None,
            wall_ns: None,
            core_cycles: None,
        }
    }

    /// A row measured with the TSC: the ticks also stand as cycles.
    pub fn with_tsc_ticks(
        benchmark: String,
        timer: &'static str,
        batch_size: usize,
        tsc_ticks: LatencyStats,
        ns: LatencyStats,
    ) -> (r: Self)
        ensures
            Self::is_timer_row(r, benchmark@, timer, batch_size, tsc_ticks, ns),
            r.tsc_ticks == Some(tsc_ticks),
            r.wall_ns is None,
            r.core_cycles is None,
    {
        Self::submit_timer_row(benchmark, timer, batch_size, tsc_ticks, ns, Some(tsc_ticks), None, None)
    }

    /// A row measured with the wall clock: the nanoseconds also stand as
    /// cycles.
    pub fn with_wall_ns(
        benchmark: String,
        timer: &'static str,
        batch_size: usize,
        wall_ns: LatencyStats,
    ) -> (r: Self)
        ensures
            Self::is_timer_row(r, benchmark@, timer, batch_size, wall_ns, wall_ns),
            r.tsc_ticks is None,
            r.wall_ns == Some(wall_ns),
            r.core_cycles is None,
    {
        Self::submit_timer_row(benchmark, timer, batch_size, wall_ns, wall_ns, None, Some(wall_ns), None)
    }

    /// A row measured in core cycles: the cycles also stand as
    /// nanoseconds.
    pub fn with_core_cycles(
        benchmark: String,
        timer: &'static str,
        batch_size: usize,
        core_cycles: LatencyStats,
    ) -> (r: Self)
        ensures
            Self::is_timer_row(r, benchmark@, timer, batch_size, core_cycles, core_cycles),
            r.tsc_ticks is None,
            r.wall_ns is None,
            r.core_cycles == Some(core_cycles),
    {
        Self::submit_timer_row(
            benchmark,
            timer,
            batch_size,
            core_cycles,
            core_cycles,
            None,
            None,
            Some(core_cycles),
        )
    }

    /// The common part of a submit-timer row.
    pub open spec fn is_timer_row(
        r: Self,
        benchmark: Seq<char>,
        timer: &'static str,
        batch_size: usize,
        cycles: LatencyStats,
        ns: LatencyStats,
    ) -> bool {
        &&& r.benchmark@ == benchmark
        &&& r.size is None
        &&& r.batch_size == Some(batch_size)
        &&& r.cycles == cycles
        &&& r.ns == ns
        &&& r.timer == Some(timer)
    }

    fn submit_timer_row(
        benchmark: String,
        timer: &'static str,
        batch_size: usize,
        cycles: LatencyStats,
        ns: LatencyStats,
        tsc_ticks: Option<LatencyStats>,
        wall_ns: Option<LatencyStats>,
        core_cycles: Option<LatencyStats>,
    ) -> (r: Self)
        ensures
            Self::is_timer_row(r, benchmark@, timer, batch_size, cycles, ns),
            r.tsc_ticks == tsc_ticks,
            r.wall_ns == wall_ns,
            r.core_cycles == core_cycles,
    {
        LatencyResult {
            benchmark,
            size: None,
            batch_size: Some(batch_size),
            cycles,
            ns,
            timer: Some(timer),
            tsc_ticks,
            wall_ns,
            core_cycles,
        }
    }
}

} // verus!
