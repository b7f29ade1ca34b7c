//! Submit-only workloads: bursts of no-op descriptors without completion
//! records, timed from the submitting core, with the queue drained by a
//! sentinel where the workload asks for it.

use vstd::prelude::*;

use crate::config::{MarkerPollCadence, SubmitOnlyMode};

verus! {

/// How a submit-only workload treats the queue around each burst.
#[derive(Copy, Clone, Debug, PartialEq, Eq, Structural)]
pub enum SubmitOnlyMeasureMode {
    /// Nothing is submitted: the cost of the timer alone.
    Empty,
    /// The queue is drained after every burst.
    Drained,
    /// Bursts follow each other without draining; the queue is drained once
    /// at the end.
    Sustained,
    /// Like `Drained`, with a memory fence between consecutive submits.
    MfenceBetweenSubmits,
}

/// A named submit-only workload.
#[derive(Copy, Clone, Debug)]
pub struct SubmitOnlyWorkload {
    pub name: &'static str,
    pub mode: SubmitOnlyMeasureMode,
}

impl SubmitOnlyWorkload {
    /// The workload named `name` in mode `mode`.
    pub open spec fn is(self, name: Seq<char>, mode: SubmitOnlyMeasureMode) -> bool {
        self.name@ == name && self.mode == mode
    }

    /// Whether the queue is drained after every burst.
    pub fn needs_sample_drain(self) -> (b: bool)
        ensures
            b == (self.mode == SubmitOnlyMeasureMode::Drained || self.mode
                == SubmitOnlyMeasureMode::MfenceBetweenSubmits),
    {
        match self.mode {
            SubmitOnlyMeasureMode::Drained | SubmitOnlyMeasureMode::MfenceBetweenSubmits => true,
            _ => false,
        }
    }

    /// Whether the queue is drained once after the last burst.
    pub fn needs_final_drain(self) -> (b: bool)
        ensures
            b == (self.mode == SubmitOnlyMeasureMode::Sustained),
    {
        match self.mode {
            SubmitOnlyMeasureMode::Sustained => true,
            _ => false,
        }
    }

    /// How many descriptors a burst of `burst` submits.
    pub fn submits_in_burst(self, burst: usize) -> (count: usize)
        ensures
            count == if self.mode == SubmitOnlyMeasureMode::Empty {
                0
            } else {
                burst
            },
    {
        match self.mode {
            SubmitOnlyMeasureMode::Empty => 0,
            _ => burst,
        }
    }

    /// Whether a fence follows submit `index` of a burst of `burst`: in the
    /// fenced mode, after every submit but the last.
    pub fn fence_after_submit(self, index: usize, burst: usize) -> (fence: bool)
        requires
            index < burst,
        ensures
            fence == (self.mode == SubmitOnlyMeasureMode::MfenceBetweenSubmits && index + 1
                != burst),
    {
        match self.mode {
            SubmitOnlyMeasureMode::MfenceBetweenSubmits => index + 1 != burst,
            _ => false,
        }
    }
}

/// The timer-only workload.
pub fn submit_only_empty() -> (w: SubmitOnlyWorkload)
    ensures
        w.is("submit_only_empty"@, SubmitOnlyMeasureMode::Empty),
{
    SubmitOnlyWorkload { name: "submit_only_empty", mode: SubmitOnlyMeasureMode::Empty }
}

/// Bursts into a drained queue.
pub fn submit_only_unloaded() -> (w: SubmitOnlyWorkload)
    ensures
        w.is("submit_only_unloaded"@, SubmitOnlyMeasureMode::Drained),
{
    SubmitOnlyWorkload { name: "submit_only_unloaded", mode: SubmitOnlyMeasureMode::Drained }
}

/// Bursts into a queue that fills up.
pub fn submit_only_pressure_ramp() -> (w: SubmitOnlyWorkload)
    ensures
        w.is("submit_only_pressure_ramp"@, SubmitOnlyMeasureMode::Sustained),
{
    SubmitOnlyWorkload {
        name: "submit_only_pressure_ramp",
        mode: SubmitOnlyMeasureMode::Sustained,
    }
}

/// Fenced bursts into a drained queue.
pub fn submit_only_mfence() -> (w: SubmitOnlyWorkload)
    ensures
        w.is("submit_only_mfence"@, SubmitOnlyMeasureMode::MfenceBetweenSubmits),
{
    SubmitOnlyWorkload {
        name: "submit_only_mfence",
        mode: SubmitOnlyMeasureMode::MfenceBetweenSubmits,
    }
}

/// The workloads a submit-only mode runs, in order: all three loaded
/// workloads (unloaded, fenced, pressure ramp), or the one the mode names.
pub fn submit_workloads(submit_mode: SubmitOnlyMode) -> (w: Vec<SubmitOnlyWorkload>)
    ensures
        submit_mode == SubmitOnlyMode::All ==> w@.len() == 3 && w@[0].is(
            "submit_only_unloaded"@,
            SubmitOnlyMeasureMode::Drained,
        ) && w@[1].is("submit_only_mfence"@, SubmitOnlyMeasureMode::MfenceBetweenSubmits)
            && w@[2].is("submit_only_pressure_ramp"@, SubmitOnlyMeasureMode::Sustained),
        submit_mode == SubmitOnlyMode::Unloaded ==> w@.len() == 1 && w@[0].is(
            "submit_only_unloaded"@,
            SubmitOnlyMeasureMode::Drained,
        ),
        submit_mode == SubmitOnlyMode::Sustained ==> w@.len() == 1 && w@[0].is(
            "submit_only_pressure_ramp"@,
            SubmitOnlyMeasureMode::Sustained,
        ),
        submit_mode == SubmitOnlyMode::Mfence ==> w@.len() == 1 && w@[0].is(
            "submit_only_mfence"@,
            SubmitOnlyMeasureMode::MfenceBetweenSubmits,
        ),
{
    let mut w: Vec<SubmitOnlyWorkload> = Vec::new();
    match submit_mode {
        SubmitOnlyMode::All => {
            w.push(submit_only_unloaded());
            w.push(submit_only_mfence());
            w.push(submit_only_pressure_ramp());
        },
        SubmitOnlyMode::Unloaded => {
            w.push(submit_only_unloaded());
        },
        SubmitOnlyMode::Sustained => {
            w.push(submit_only_pressure_ramp());
        },
        SubmitOnlyMode::Mfence => {
            w.push(submit_only_mfence());
        },
    }
    w
}

/// Whether the marker is polled after `submitted` submits: every `k`
/// submits for a cadence of `k`, never for `Never`.
pub fn should_poll_marker(cadence: MarkerPollCadence, submitted: usize) -> (poll: bool)
    requires
        cadence matches MarkerPollCadence::Every(k) ==> k != 0,
    ensures
        poll == match cadence {
            MarkerPollCadence::Every(k) => submitted % k == 0,
            MarkerPollCadence::Never => false,
        },
{
    match cadence {
        MarkerPollCadence::Every(value) => submitted % value == 0,
        MarkerPollCadence::Never => false,
    }
}

} // verus!
