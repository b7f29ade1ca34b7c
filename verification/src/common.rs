//! Completion accounting shared by the submit-path experiments: counting
//! the completions of a burst, and the timeout bookkeeping of the wait
//! loops around them.

use vstd::prelude::*;

use crate::config::DsaOperationClass;
use crate::dsa::{
    completion_flags_no_cache_control, memmove_image, prepared_image,
    spec_completion_flags_no_cache_control, spec_status_mask, DsaCompletionStatus, DsaHwDesc,
    COMPLETION_ADDR_OFFSET, DSA_COMP_NONE, DSA_COMP_SUCCESS, DSA_OPCODE_NOOP,
};
use crate::layout::{le_bytes_u64, put_bytes};

verus! {

/// How long a burst may take to complete before it is abandoned.
pub const COMPLETION_TIMEOUT_NS: u128 = 1_000_000;

/// The wait loops look at the clock once every this many spins.
pub const TIMEOUT_CHECK_STRIDE: u64 = 256;

/// Whether a written status counts as an error: it is not `NONE` and its
/// masked status is not `SUCCESS`.
pub open spec fn is_error_status(status: u8) -> bool {
    status != DSA_COMP_NONE && spec_status_mask(status) != DSA_COMP_SUCCESS
}

/// The number of written statuses.
pub open spec fn count_completed(statuses: Seq<u8>) -> nat
    decreases statuses.len(),
{
    if statuses.len() == 0 {
        0
    } else {
        count_completed(statuses.drop_last()) + if statuses.last() != DSA_COMP_NONE {
            1nat
        } else {
            0nat
        }
    }
}

/// The number of error statuses.
pub open spec fn count_errors(statuses: Seq<u8>) -> nat
    decreases statuses.len(),
{
    if statuses.len() == 0 {
        0
    } else {
        count_errors(statuses.drop_last()) + if is_error_status(statuses.last()) {
            1nat
        } else {
            0nat
        }
    }
}

/// The number of `true` entries.
pub open spec fn count_seen(seen: Seq<bool>) -> nat
    decreases seen.len(),
{
    if seen.len() == 0 {
        0
    } else {
        count_seen(seen.drop_last()) + if seen.last() {
            1nat
        } else {
            0nat
        }
    }
}

proof fn lemma_count_bounds(statuses: Seq<u8>)
    ensures
        count_errors(statuses) <= count_completed(statuses) <= statuses.len(),
    decreases statuses.len(),
{
    if statuses.len() > 0 {
        lemma_count_bounds(statuses.drop_last());
    }
}

pub proof fn lemma_count_seen_bound(seen: Seq<bool>)
    ensures
        count_seen(seen) <= seen.len(),
    decreases seen.len(),
{
    if seen.len() > 0 {
        lemma_count_seen_bound(seen.drop_last());
    }
}

/// Setting one unset entry adds one to the count.
pub proof fn lemma_count_seen_set(seen: Seq<bool>, i: int)
    requires
        0 <= i < seen.len(),
        !seen[i],
    ensures
        count_seen(seen.update(i, true)) == count_seen(seen) + 1,
    decreases seen.len(),
{
    let s2 = seen.update(i, true);
    if i == seen.len() - 1 {
        assert(s2.drop_last() =~= seen.drop_last());
    } else {
        lemma_count_seen_set(seen.drop_last(), i);
        assert(s2.drop_last() =~= seen.drop_last().update(i, true));
    }
}

/// Completions counted so far in a burst, and how many of them failed.
#[derive(Clone, Copy, Debug, Default, PartialEq, Eq, Structural)]
pub struct CompletionOutcome {
    pub completed: usize,
    pub errors: usize,
}

impl CompletionOutcome {
    /// Errors are among the completions.
    pub open spec fn wf(&self) -> bool {
        self.errors <= self.completed
    }

    pub fn new() -> (o: Self)
        ensures
            o.completed == 0,
            o.errors == 0,
    {
        CompletionOutcome { completed: 0, errors: 0 }
    }

    /// Counts one status read: nothing while it is `NONE`, else one more
    /// completion, and one more error unless the masked status is
    /// `SUCCESS`. Returns whether the status was written.
    pub fn record_status(&mut self, status: u8) -> (written: bool)
        requires
            old(self).wf(),
            old(self).completed < usize::MAX,
        ensures
            written == (status != DSA_COMP_NONE),
            final(self).wf(),
            final(self).completed == old(self).completed + if written {
                1int
            } else {
                0int
            },
            final(self).errors == old(self).errors + if is_error_status(status) {
                1int
            } else {
                0int
            },
    {
        if status == DSA_COMP_NONE {
            return false;
        }
        self.completed = self.completed + 1;
        if DsaCompletionStatus::mask(status) != DSA_COMP_SUCCESS {
            self.errors = self.errors + 1;
        }
        true
    }

    /// Counts the status read from slot `index`, which has not been seen
    /// yet, and marks the slot seen once its status is written. The number
    /// of completions stays the number of seen slots.
    pub fn record_unseen(&mut self, seen: &mut Vec<bool>, index: usize, status: u8) -> (written:
        bool)
        requires
            old(self).wf(),
            index < old(seen)@.len(),
            !old(seen)@[index as int],
            old(self).completed == count_seen(old(seen)@),
        ensures
            written == (status != DSA_COMP_NONE),
            final(self).wf(),
            final(self).completed == count_seen(final(seen)@),
            final(seen)@ == if written {
                old(seen)@.update(index as int, true)
            } else {
                old(seen)@
            },
            final(self).completed == old(self).completed + if written {
                1int
            } else {
                0int
            },
            final(self).errors == old(self).errors + if is_error_status(status) {
                1int
            } else {
                0int
            },
    {
        let slots = seen.len();
        proof {
            lemma_count_seen_set(seen@, index as int);
            lemma_count_seen_bound(seen@.update(index as int, true));
        }
        assert(self.completed < slots);
        let written = self.record_status(status);
        if written {
            seen.set(index, true);
        }
        written
    }
}

/// Counts the statuses of a burst read once each.
pub fn scan_visible_completions(statuses: &[u8]) -> (o: CompletionOutcome)
    ensures
        o.completed == count_completed(statuses@),
        o.errors == count_errors(statuses@),
{
    let mut outcome = CompletionOutcome::new();
    let mut i: usize = 0;
    while i < statuses.len()
        invariant
            i <= statuses@.len(),
            outcome.completed == count_completed(statuses@.subrange(0, i as int)),
            outcome.errors == count_errors(statuses@.subrange(0, i as int)),
        decreases statuses@.len() - i,
    {
        proof {
            lemma_count_bounds(statuses@.subrange(0, i as int));
            assert(statuses@.subrange(0, i + 1).drop_last() =~= statuses@.subrange(0, i as int));
        }
        outcome.record_status(statuses[i]);
        i = i + 1;
    }
    assert(statuses@.subrange(0, statuses@.len() as int) =~= statuses@);
    outcome
}

/// `n` slots, none seen.
pub fn unseen_slots(n: usize) -> (seen: Vec<bool>)
    ensures
        seen@.len() == n,
        forall|i: int| 0 <= i < n ==> !#[trigger] seen@[i],
        count_seen(seen@) == 0,
{
    let mut seen: Vec<bool> = Vec::new();
    let mut i: usize = 0;
    while i < n
        invariant
            i <= n,
            seen@.len() == i,
            forall|k: int| 0 <= k < i ==> !#[trigger] seen@[k],
            count_seen(seen@) == 0,
        decreases n - i,
    {
        let ghost before = seen@;
        seen.push(false);
        proof {
            assert(seen@.drop_last() =~= before);
        }
        i = i + 1;
    }
    seen
}

/// Whether the wait loop looks at the clock after `spins` spins.
pub fn timeout_check_due(spins: u64) -> (due: bool)
    ensures
        due == (spins % TIMEOUT_CHECK_STRIDE == 0),
{
    let due = spins & (TIMEOUT_CHECK_STRIDE - 1) == 0;
    assert(spins & 255u64 == spins % 256) by (bit_vector);
    due
}

/// `COMPLETION_TIMEOUT_NS` in TSC ticks at `tsc_freq` Hz.
pub fn completion_timeout_tsc(tsc_freq: u64) -> (ticks: u64)
    ensures
        ticks == COMPLETION_TIMEOUT_NS * tsc_freq / 1_000_000_000,
{
    assert(COMPLETION_TIMEOUT_NS * (tsc_freq as u128) <= 1_000_000 * 0xffff_ffff_ffff_ffffu128)
        by (nonlinear_arith)
        requires
            tsc_freq <= 0xffff_ffff_ffff_ffffu64,
    ;
    let ticks: u128 = COMPLETION_TIMEOUT_NS * (tsc_freq as u128) / 1_000_000_000;
    assert(ticks <= u64::MAX);
    ticks as u64
}

/// Whether a bounded wait saw fewer than all `count` completions, so that
/// the burst is counted again once the queue has been drained.
pub fn needs_rescan(bounded: &CompletionOutcome, count: usize) -> (rescan: bool)
    ensures
        rescan == (bounded.completed != count),
{
    bounded.completed != count
}

/// The counting used by the admission probe: the same as for every other
/// burst.
pub type AdmissionCompletionOutcome = CompletionOutcome;

/// The descriptor of slot `slot` of a burst of `operation`s: a no-op
/// (without cache control), or a
/// move of `payload_size` bytes between the slot's own regions of the
/// source and destination buffers (at `slot * payload_size` from their
/// starts); either way completing into the record at `completion_addr`.
pub fn fill_descriptor(
    desc: &mut DsaHwDesc,
    completion_addr: u64,
    sources: u64,
    destinations: u64,
    slot: usize,
    payload_size: usize,
    operation: DsaOperationClass,
)
    requires
        slot * payload_size <= usize::MAX,
        payload_size <= u32::MAX,
    ensures
        ({
            let offset = (slot * payload_size) as u64;
            let image = match operation {
                DsaOperationClass::Noop => prepared_image(
                    DSA_OPCODE_NOOP,
                    spec_completion_flags_no_cache_control(),
                ),
                _ => memmove_image(
                    sources.wrapping_add(offset),
                    destinations.wrapping_add(offset),
                    payload_size as u32,
                ),
            };
            final(desc)@ == put_bytes(image, COMPLETION_ADDR_OFFSET as int, le_bytes_u64(completion_addr))
        }),
{
    match operation {
        DsaOperationClass::Noop => desc.prepare(DSA_OPCODE_NOOP, completion_flags_no_cache_control()),
        _ => {
            let offset = (slot * payload_size) as u64;
            desc.fill_memmove(
                sources.wrapping_add(offset),
                destinations.wrapping_add(offset),
                payload_size as u32,
            );
        },
    }
    desc.set_completion(completion_addr);
}

} // verus!
