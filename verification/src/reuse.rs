//! Completion reuse policies: a window of operations is kept in flight,
//! and completed slots are discovered, reset and resubmitted in one of
//! several ways. The types here hold the bookkeeping of a run and the
//! decisions each policy makes between the reads, resets and submits.

use vstd::prelude::*;

use crate::common::count_seen;
use crate::config::CompletionReusePolicy;
use crate::dsa::{spec_status_mask, DsaCompletionStatus, DSA_COMP_NONE, DSA_COMP_SUCCESS};
use crate::stats::{ops_per_second, spec_ops_per_second};
use crate::submit::{cycles_to_ns, spec_cycles_to_ns};
use crate::trace::sat_sub;

verus! {

/// How long one policy run may last.
pub const COMPLETION_REUSE_TIMEOUT_NS: u128 = 1_000_000_000;

/// The most completions the batch-harvest policy gathers before it resets
/// and resubmits them together.
pub const BATCH_HARVEST_MAX: usize = 16;

/// The number of completions a run aims for: at least one per iteration and
/// at least one per slot of the window.
pub fn reuse_target(iterations: usize, window: usize) -> (target: usize)
    ensures
        target == if iterations >= window {
            iterations
        } else {
            window
        },
{
    if iterations >= window {
        iterations
    } else {
        window
    }
}

/// How many ready slots the delayed-reset policies gather before resetting
/// and resubmitting them: the whole window for delayed reset, at most
/// `BATCH_HARVEST_MAX` for batch harvest; the other policies gather none.
pub fn harvest_batch(policy: CompletionReusePolicy, window: usize) -> (batch: Option<usize>)
    ensures
        batch == match policy {
            CompletionReusePolicy::DelayedReset => Some(window),
            CompletionReusePolicy::BatchHarvest => Some(
                if window <= BATCH_HARVEST_MAX {
                    window
                } else {
                    BATCH_HARVEST_MAX
                },
            ),
            _ => None::<usize>,
        },
{
    match policy {
        CompletionReusePolicy::DelayedReset => Some(window),
        CompletionReusePolicy::BatchHarvest => Some(
            if window <= BATCH_HARVEST_MAX {
                window
            } else {
                BATCH_HARVEST_MAX
            },
        ),
        _ => None,
    }
}

/// Whether a run that started `elapsed_ns` ago has run out of time.
pub fn completion_reuse_timed_out(elapsed_ns: u128) -> (timed_out: bool)
    ensures
        timed_out == (elapsed_ns >= COMPLETION_REUSE_TIMEOUT_NS),
{
    elapsed_ns >= COMPLETION_REUSE_TIMEOUT_NS
}

/// The slot the round-robin policy polls after `slot`.
pub fn next_round_robin_slot(slot: usize, window: usize) -> (next: usize)
    requires
        slot < window,
    ensures
        next == (slot + 1) % (window as int),
        next < window,
{
    let next = slot + 1;
    if next == window {
        assert((window as int) % (window as int) == 0) by (nonlinear_arith)
            requires
                window > 0,
        ;
        0
    } else {
        assert((next as int) % (window as int) == next) by (nonlinear_arith)
            requires
                0 <= next < window,
        ;
        next
    }
}

/// The reset-and-submit time charged to each of `ready` slots reset and
/// resubmitted together in `elapsed_tsc` ticks.
pub fn reset_ticks_per_completion(elapsed_tsc: u64, ready: usize) -> (ticks: u64)
    requires
        ready > 0,
    ensures
        ticks == elapsed_tsc / (ready as u64),
{
    elapsed_tsc / (ready as u64)
}

/// What a scan does with the slot it just read.
#[derive(Copy, Clone, Debug, PartialEq, Eq, Structural)]
pub enum ReuseAction {
    /// The slot has not completed: leave it.
    Skip,
    /// Reset its record and resubmit it at once.
    ResubmitNow,
    /// Count it as done until the whole window is refilled.
    MarkSeen,
    /// Hold it, to be reset and resubmitted with the rest of the batch.
    HoldForBatch,
}

/// The decision after one read in a scan: what to do with the slot, and
/// whether the scan stops there.
#[derive(Copy, Clone, Debug, PartialEq, Eq, Structural)]
pub struct ReuseStep {
    pub action: ReuseAction,
    pub end_scan: bool,
}

/// The decision of `policy` after reading one slot of a window of
/// `window`: `harvested` tells whether the slot had completed, `held` how
/// many slots the current batch already holds, and `target_reached`
/// whether the run has its completions now.
/// - Round robin reads one slot per scan and resubmits it when done.
/// - Packed scan resubmits each done slot and stops once the target is
///   reached.
/// - Poll-only marks each done slot and stops once the target is reached.
/// - Delayed reset and batch harvest hold each done slot and stop when the
///   batch (`harvest_batch`) is full or the target is reached.
/// A slot not yet done is left, and the scan goes on, except in round
/// robin.
pub open spec fn spec_reuse_scan_step(
    policy: CompletionReusePolicy,
    window: usize,
    harvested: bool,
    held: usize,
    target_reached: bool,
) -> ReuseStep {
    match policy {
        CompletionReusePolicy::PaddedRoundRobin => ReuseStep {
            action: if harvested {
                ReuseAction::ResubmitNow
            } else {
                ReuseAction::Skip
            },
            end_scan: true,
        },
        _ => if !harvested {
            ReuseStep { action: ReuseAction::Skip, end_scan: false }
        } else {
            match policy {
                CompletionReusePolicy::PackedScan => ReuseStep {
                    action: ReuseAction::ResubmitNow,
                    end_scan: target_reached,
                },
                CompletionReusePolicy::PollOnly => ReuseStep {
                    action: ReuseAction::MarkSeen,
                    end_scan: target_reached,
                },
                _ => ReuseStep {
                    action: ReuseAction::HoldForBatch,
                    end_scan: held + 1 == spec_harvest_batch(policy, window) || target_reached,
                },
            }
        },
    }
}

/// The batch a batching policy gathers: the whole window for delayed
/// reset, at most `BATCH_HARVEST_MAX` for batch harvest.
pub open spec fn spec_harvest_batch(policy: CompletionReusePolicy, window: usize) -> int {
    match policy {
        CompletionReusePolicy::BatchHarvest => if window <= BATCH_HARVEST_MAX {
            window as int
        } else {
            BATCH_HARVEST_MAX as int
        },
        _ => window as int,
    }
}

/// What each policy does with a slot it reads. A slot not yet done is
/// always left. A done slot is marked seen under poll-only (never
/// resubmitted during the scan, whether or not the target is reached),
/// resubmitted at once under packed scan and round robin, and held for the
/// batch under delayed reset and batch harvest. Round robin ends its scan
/// after one slot; every other scan ends only at a done slot, when the
/// target is reached or, for a batching policy, when the slot fills the
/// batch: the whole window for delayed reset, at most `BATCH_HARVEST_MAX`
/// slots for batch harvest.
pub proof fn law_reuse_scan_actions(
    policy: CompletionReusePolicy,
    window: usize,
    harvested: bool,
    held: usize,
    target_reached: bool,
)
    ensures
        ({
            let step = spec_reuse_scan_step(policy, window, harvested, held, target_reached);
            &&& !harvested ==> step.action == ReuseAction::Skip
            &&& harvested && policy == CompletionReusePolicy::PollOnly ==> step.action
                == ReuseAction::MarkSeen
            &&& harvested && (policy == CompletionReusePolicy::PackedScan || policy
                == CompletionReusePolicy::PaddedRoundRobin) ==> step.action
                == ReuseAction::ResubmitNow
            &&& harvested && (policy == CompletionReusePolicy::DelayedReset || policy
                == CompletionReusePolicy::BatchHarvest) ==> step.action
                == ReuseAction::HoldForBatch
            &&& policy == CompletionReusePolicy::PaddedRoundRobin ==> step.end_scan
            &&& policy != CompletionReusePolicy::PaddedRoundRobin ==> (step.end_scan <==> harvested
                && (target_reached || (policy == CompletionReusePolicy::DelayedReset && held
                + 1 == window) || (policy == CompletionReusePolicy::BatchHarvest && held + 1 == (
            if window <= BATCH_HARVEST_MAX {
                window as int
            } else {
                BATCH_HARVEST_MAX as int
            }))))
        }),
{
}

pub fn reuse_scan_step(
    policy: CompletionReusePolicy,
    window: usize,
    harvested: bool,
    held: usize,
    target_reached: bool,
) -> (step: ReuseStep)
    ensures
        step == spec_reuse_scan_step(policy, window, harvested, held, target_reached),
{
    match policy {
        CompletionReusePolicy::PaddedRoundRobin => ReuseStep {
            action: if harvested {
                ReuseAction::ResubmitNow
            } else {
                ReuseAction::Skip
            },
            end_scan: true,
        },
        _ => if !harvested {
            ReuseStep { action: ReuseAction::Skip, end_scan: false }
        } else {
            match policy {
                CompletionReusePolicy::PackedScan => ReuseStep {
                    action: ReuseAction::ResubmitNow,
                    end_scan: target_reached,
                },
                CompletionReusePolicy::PollOnly => ReuseStep {
                    action: ReuseAction::MarkSeen,
                    end_scan: target_reached,
                },
                _ => {
                    let batch = if policy == CompletionReusePolicy::BatchHarvest
                        && window > BATCH_HARVEST_MAX {
                        BATCH_HARVEST_MAX
                    } else {
                        window
                    };
                    ReuseStep {
                        action: ReuseAction::HoldForBatch,
                        end_scan: (batch > 0 && held == batch - 1) || target_reached,
                    }
                },
            }
        },
    }
}

/// Whether the final wait for a slot after the run counts as an error: it
/// never completed, or completed with a status other than success.
pub open spec fn spec_drain_error(polled: Option<u8>) -> bool {
    match polled {
        Some(status) => spec_status_mask(status) != DSA_COMP_SUCCESS,
        None => true,
    }
}

pub fn drain_error(polled: Option<u8>) -> (error: bool)
    ensures
        error == spec_drain_error(polled),
{
    match polled {
        Some(status) => DsaCompletionStatus::mask(status) != DSA_COMP_SUCCESS,
        None => true,
    }
}

/// The counts and samples of one policy run.
pub struct CompletionReuseAccumulator {
    pub completed: u64,
    pub errors: u64,
    pub polls: u64,
    pub tsc_freq: u64,
    pub harvest_tsc: Vec<u64>,
    pub harvest_ns: Vec<u64>,
    pub reset_to_submit_tsc: Vec<u64>,
    pub reset_to_submit_ns: Vec<u64>,
}

impl CompletionReuseAccumulator {
    /// Every harvest is a completion, timed in ticks and nanoseconds;
    /// errors are among the completions.
    pub open spec fn wf(&self) -> bool {
        &&& self.tsc_freq != 0
        &&& self.harvest_tsc@.len() == self.completed
        &&& self.harvest_ns@.len() == self.completed
        &&& self.errors <= self.completed
        &&& self.reset_to_submit_ns@.len() == self.reset_to_submit_tsc@.len()
        &&& forall|i: int|
            0 <= i < self.harvest_tsc@.len() ==> #[trigger] self.harvest_ns@[i] == spec_cycles_to_ns(
                self.harvest_tsc@[i],
                self.tsc_freq,
            )
        &&& forall|i: int|
            0 <= i < self.reset_to_submit_tsc@.len() ==> #[trigger] self.reset_to_submit_ns@[i]
                == spec_cycles_to_ns(self.reset_to_submit_tsc@[i], self.tsc_freq)
    }

    pub fn new(target: usize, tsc_freq: u64) -> (a: Self)
        requires
            tsc_freq != 0,
        ensures
            a.wf(),
            a.completed == 0,
            a.errors == 0,
            a.polls == 0,
            a.tsc_freq == tsc_freq,
            a.reset_to_submit_tsc@.len() == 0,
    {
        CompletionReuseAccumulator {
            completed: 0,
            errors: 0,
            polls: 0,
            tsc_freq,
            harvest_tsc: Vec::with_capacity(target),
            harvest_ns: Vec::with_capacity(target),
            reset_to_submit_tsc: Vec::new(),
            reset_to_submit_ns: Vec::new(),
        }
    }

    pub fn target_reached(&self, target: usize) -> (reached: bool)
        ensures
            reached == (self.completed >= target),
    {
        self.completed >= target as u64
    }

    /// One harvested completion with `status`, read in `harvest_ticks`.
    pub fn record_harvest(&mut self, status: u8, harvest_ticks: u64)
        requires
            old(self).wf(),
        ensures
            final(self).wf(),
            final(self).completed == old(self).completed + 1,
            final(self).errors == old(self).errors + if spec_status_mask(status)
                != DSA_COMP_SUCCESS {
                1int
            } else {
                0int
            },
            final(self).polls == old(self).polls,
            final(self).tsc_freq == old(self).tsc_freq,
            final(self).harvest_tsc@ == old(self).harvest_tsc@.push(harvest_ticks),
            final(self).reset_to_submit_tsc@ == old(self).reset_to_submit_tsc@,
    {
        self.harvest_tsc.push(harvest_ticks);
        self.harvest_ns.push(cycles_to_ns(harvest_ticks, self.tsc_freq));
        let harvested = self.harvest_tsc.len();
        assert(self.completed < harvested);
        self.completed = self.completed + 1;
        if DsaCompletionStatus::mask(status) != DSA_COMP_SUCCESS {
            self.errors = self.errors + 1;
        }
    }

    /// One reset-and-resubmit of a slot, taking `reset_ticks`.
    pub fn record_reset_to_submit(&mut self, reset_ticks: u64)
        requires
            old(self).wf(),
        ensures
            final(self).wf(),
            final(self).completed == old(self).completed,
            final(self).errors == old(self).errors,
            final(self).polls == old(self).polls,
            final(self).tsc_freq == old(self).tsc_freq,
            final(self).harvest_tsc@ == old(self).harvest_tsc@,
            final(self).reset_to_submit_tsc@ == old(self).reset_to_submit_tsc@.push(reset_ticks),
    {
        self.reset_to_submit_tsc.push(reset_ticks);
        self.reset_to_submit_ns.push(cycles_to_ns(reset_ticks, self.tsc_freq));
    }

    /// One poll of a slot that read `status` in `latency_tsc` ticks: a
    /// written status is harvested and returned.
    pub fn record_slot_poll(&mut self, status: u8, latency_tsc: u64) -> (harvested: Option<u8>)
        requires
            old(self).wf(),
            old(self).polls < u64::MAX,
        ensures
            final(self).wf(),
            final(self).polls == old(self).polls + 1,
            final(self).tsc_freq == old(self).tsc_freq,
            final(self).reset_to_submit_tsc@ == old(self).reset_to_submit_tsc@,
            status == DSA_COMP_NONE ==> harvested is None && final(self).completed == old(
                self,
            ).completed && final(self).errors == old(self).errors && final(self).harvest_tsc@
                == old(self).harvest_tsc@,
            status != DSA_COMP_NONE ==> harvested == Some(status) && final(self).completed == old(
                self,
            ).completed + 1 && final(self).errors == old(self).errors + if spec_status_mask(status)
                != DSA_COMP_SUCCESS {
                1int
            } else {
                0int
            } && final(self).harvest_tsc@ == old(self).harvest_tsc@.push(latency_tsc),
    {
        self.polls = self.polls + 1;
        if status == DSA_COMP_NONE {
            None
        } else {
            self.record_harvest(status, latency_tsc);
            Some(status)
        }
    }
}

/// The outcome of one policy run.
pub struct CompletionReuseMeasurement {
    pub completed: u64,
    pub missing: u64,
    pub errors: u64,
    pub polls: u64,
    pub ops_per_sec: u64,
    pub harvest_tsc: Vec<u64>,
    pub harvest_ns: Vec<u64>,
    pub reset_to_submit_tsc: Vec<u64>,
    pub reset_to_submit_ns: Vec<u64>,
}

impl CompletionReuseMeasurement {
    /// The outcome of a run aiming for `target` completions that took
    /// `elapsed_tsc` ticks, after which `drain_errors` slots failed to
    /// complete cleanly.
    pub fn from_run(
        acc: CompletionReuseAccumulator,
        target: usize,
        elapsed_tsc: u64,
        drain_errors: u64,
    ) -> (m: Self)
        requires
            acc.wf(),
            acc.errors + drain_errors <= u64::MAX,
        ensures
            m.completed == acc.completed,
            m.missing == sat_sub(target as u64, acc.completed),
            m.errors == acc.errors + drain_errors,
            m.polls == acc.polls,
            m.ops_per_sec == spec_ops_per_second(acc.completed, elapsed_tsc, acc.tsc_freq),
            m.harvest_tsc@ == acc.harvest_tsc@,
            m.harvest_ns@ == acc.harvest_ns@,
            m.reset_to_submit_tsc@ == acc.reset_to_submit_tsc@,
            m.reset_to_submit_ns@ == acc.reset_to_submit_ns@,
    {
        let ops_per_sec = ops_per_second(acc.completed, elapsed_tsc, acc.tsc_freq);
        CompletionReuseMeasurement {
            completed: acc.completed,
            missing: (target as u64).saturating_sub(acc.completed),
            errors: acc.errors + drain_errors,
            polls: acc.polls,
            ops_per_sec,
            harvest_tsc: acc.harvest_tsc,
            harvest_ns: acc.harvest_ns,
            reset_to_submit_tsc: acc.reset_to_submit_tsc,
            reset_to_submit_ns: acc.reset_to_submit_ns,
        }
    }
}

/// The poll-only policy's window: which slots have completed since the
/// window was last submitted, and how many are still outstanding.
pub struct PollOnlyWindow {
    pub seen: Vec<bool>,
    pub outstanding: usize,
}

impl PollOnlyWindow {
    /// The outstanding slots are those not seen.
    pub open spec fn wf(&self) -> bool {
        self.outstanding + count_seen(self.seen@) == self.seen@.len()
    }

    /// A freshly submitted window of `window` slots.
    pub fn new(window: usize) -> (w: Self)
        ensures
            w.wf(),
            w.seen@.len() == window,
            w.outstanding == window,
            forall|i: int| 0 <= i < window ==> !#[trigger] w.seen@[i],
    {
        let seen = crate::common::unseen_slots(window);
        PollOnlyWindow { seen, outstanding: window }
    }

    /// Slot `slot` completed: it is seen and no longer outstanding.
    pub fn mark_completed(&mut self, slot: usize)
        requires
            old(self).wf(),
            slot < old(self).seen@.len(),
            !old(self).seen@[slot as int],
        ensures
            final(self).wf(),
            final(self).seen@ == old(self).seen@.update(slot as int, true),
            final(self).outstanding == old(self).outstanding - 1,
    {
        proof {
            crate::common::lemma_count_seen_set(self.seen@, slot as int);
            crate::common::lemma_count_seen_bound(self.seen@.update(slot as int, true));
        }
        self.seen.set(slot, true);
        self.outstanding = self.outstanding - 1;
    }

    /// Whether the whole window completed before the target was reached,
    /// so that every slot is reset and resubmitted.
    pub fn needs_refill(&self, target_reached: bool) -> (refill: bool)
        ensures
            refill == (self.outstanding == 0 && !target_reached),
    {
        self.outstanding == 0 && !target_reached
    }

    /// The window was reset and resubmitted: nothing is seen and every slot
    /// is outstanding again.
    pub fn refill(&mut self)
        requires
            old(self).wf(),
        ensures
            final(self).wf(),
            final(self).seen@.len() == old(self).seen@.len(),
            final(self).outstanding == old(self).seen@.len(),
            forall|i: int| 0 <= i < old(self).seen@.len() ==> !#[trigger] final(self).seen@[i],
    {
        let window = self.seen.len();
        self.seen = crate::common::unseen_slots(window);
        self.outstanding = window;
    }
}

} // verus!
