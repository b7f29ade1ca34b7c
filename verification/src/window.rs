//! Keeping a fixed number of operations in flight: what to do with each
//! completion status, which slot to reap next, when to resubmit, and how a
//! window is split between submitting threads.

use vstd::prelude::*;

use crate::dsa::{DSA_COMP_PAGE_FAULT_NOBOF, DSA_COMP_SUCCESS};
use crate::iax::{IAX_COMP_PAGE_FAULT_IR, IAX_COMP_SUCCESS};

verus! {

/// The status a batch descriptor reports when some of its descriptors
/// failed; the throughput benchmarks count such a batch as done.
pub const DSA_COMP_BATCH_PARTIAL: u8 = 0x05;

/// What a throughput loop does with a completion status.
#[derive(Copy, Clone, Debug, PartialEq, Eq, Structural)]
pub enum StatusAction {
    /// The operation is done.
    Complete,
    /// A page fault stopped the operation: touch the page and resubmit.
    RetryAfterFault,
    /// Any other status is fatal.
    Fail,
}

/// The action for `status`: page faults are retried, success completes,
/// and for batches a partial-completion status completes too.
pub open spec fn spec_status_action(status: u8, batch: bool) -> StatusAction {
    if status == DSA_COMP_PAGE_FAULT_NOBOF {
        StatusAction::RetryAfterFault
    } else if status == DSA_COMP_SUCCESS || (batch && status == DSA_COMP_BATCH_PARTIAL) {
        StatusAction::Complete
    } else {
        StatusAction::Fail
    }
}

pub fn status_action(status: u8, batch: bool) -> (a: StatusAction)
    ensures
        a == spec_status_action(status, batch),
{
    if status == DSA_COMP_PAGE_FAULT_NOBOF {
        StatusAction::RetryAfterFault
    } else if status == DSA_COMP_SUCCESS || (batch && status == DSA_COMP_BATCH_PARTIAL) {
        StatusAction::Complete
    } else {
        StatusAction::Fail
    }
}

/// The action for an IAX status: a page fault on the input is retried,
/// success completes, anything else is fatal.
pub open spec fn spec_iax_status_action(status: u8) -> StatusAction {
    if status == IAX_COMP_PAGE_FAULT_IR {
        StatusAction::RetryAfterFault
    } else if status == IAX_COMP_SUCCESS {
        StatusAction::Complete
    } else {
        StatusAction::Fail
    }
}

pub fn iax_status_action(status: u8) -> (a: StatusAction)
    ensures
        a == spec_iax_status_action(status),
{
    if status == IAX_COMP_PAGE_FAULT_IR {
        StatusAction::RetryAfterFault
    } else if status == IAX_COMP_SUCCESS {
        StatusAction::Complete
    } else {
        StatusAction::Fail
    }
}

/// Only a successful status completes an operation (for a batch, also a
/// partial completion); a page fault is always retried and is the only
/// status that is; every other status is fatal. This holds for DSA and,
/// with its own codes, for IAX.
pub proof fn law_status_actions(status: u8, batch: bool)
    ensures
        (spec_status_action(status, batch) == StatusAction::Complete) <==> (status
            == DSA_COMP_SUCCESS || (batch && status == DSA_COMP_BATCH_PARTIAL)),
        (spec_status_action(status, batch) == StatusAction::RetryAfterFault) <==> (status
            == DSA_COMP_PAGE_FAULT_NOBOF),
        (spec_status_action(status, batch) == StatusAction::Fail) <==> (status
            != DSA_COMP_SUCCESS && status != DSA_COMP_PAGE_FAULT_NOBOF && !(batch && status
            == DSA_COMP_BATCH_PARTIAL)),
        (spec_iax_status_action(status) == StatusAction::Complete) <==> (status
            == IAX_COMP_SUCCESS),
        (spec_iax_status_action(status) == StatusAction::RetryAfterFault) <==> (status
            == IAX_COMP_PAGE_FAULT_IR),
        (spec_iax_status_action(status) == StatusAction::Fail) <==> (status != IAX_COMP_SUCCESS
            && status != IAX_COMP_PAGE_FAULT_IR),
{
}

/// The levels of a sweep that do not exceed `max`, in order.
pub fn levels_up_to(levels: &[usize], max: usize) -> (kept: Vec<usize>)
    ensures
        kept@ == levels@.filter(|l: usize| l <= max),
{
    let mut kept: Vec<usize> = Vec::new();
    let mut i: usize = 0;
    while i < levels.len()
        invariant
            i <= levels@.len(),
            kept@ == levels@.subrange(0, i as int).filter(|l: usize| l <= max),
        decreases levels@.len() - i,
    {
        proof {
            let pre = levels@.subrange(0, i + 1);
            assert(pre.drop_last() =~= levels@.subrange(0, i as int));
            levels@.subrange(0, i as int).lemma_filter_push(levels@[i as int], |l: usize| l <= max);
            assert(levels@.subrange(0, i as int).push(levels@[i as int]) =~= pre);
        }
        if levels[i] <= max {
            kept.push(levels[i]);
        }
        i = i + 1;
    }
    assert(levels@.subrange(0, levels@.len() as int) =~= levels@);
    kept
}

/// A window of `window` slots kept busy until `target` operations have
/// completed: slots are reaped round-robin, and a reaped slot is
/// resubmitted while fewer than `target` operations have been issued.
pub struct SlidingWindow {
    pub window: usize,
    pub target: usize,
    pub issued: usize,
    pub completed: usize,
    pub slot: usize,
}

impl SlidingWindow {
    /// Every slot holds one operation until the target is issued; the
    /// slot to reap next is in the window.
    pub open spec fn wf(&self) -> bool {
        &&& 0 < self.window <= self.target
        &&& self.slot < self.window
        &&& self.completed <= self.target
        &&& self.issued == if self.window + self.completed <= self.target {
            self.window + self.completed
        } else {
            self.target as int
        }
    }

    /// The window right after its first `window` operations were submitted.
    pub fn new(window: usize, target: usize) -> (w: Self)
        requires
            0 < window <= target,
        ensures
            w.wf(),
            w.window == window,
            w.target == target,
            w.issued == window,
            w.completed == 0,
            w.slot == 0,
    {
        SlidingWindow { window, target, issued: window, completed: 0, slot: 0 }
    }

    /// Whether every target operation has completed.
    pub fn is_done(&self) -> (done: bool)
        ensures
            done == (self.completed >= self.target),
    {
        self.completed >= self.target
    }

    /// The slot whose operation completed is counted; returns whether it
    /// is resubmitted; the next slot in turn is reaped next.
    pub fn record_completion(&mut self) -> (resubmit: bool)
        requires
            old(self).wf(),
            old(self).completed < old(self).target,
        ensures
            final(self).wf(),
            final(self).window == old(self).window,
            final(self).target == old(self).target,
            final(self).completed == old(self).completed + 1,
            resubmit == (old(self).issued < old(self).target),
            final(self).issued == old(self).issued + if resubmit {
                1int
            } else {
                0int
            },
            final(self).slot == (old(self).slot + 1) % (old(self).window as int),
    {
        self.completed = self.completed + 1;
        let resubmit = self.issued < self.target;
        if resubmit {
            self.issued = self.issued + 1;
        }
        let next = self.slot + 1;
        if next == self.window {
            assert((self.window as int) % (self.window as int) == 0) by (nonlinear_arith)
                requires
                    self.window > 0,
            ;
            self.slot = 0;
        } else {
            assert((next as int) % (self.window as int) == next) by (nonlinear_arith)
                requires
                    0 <= next < self.window,
            ;
            self.slot = next;
        }
        resubmit
    }
}

/// Once the window is done, every issued operation has completed, and no
/// more than `window` operations were ever in flight.
pub proof fn law_window_drains(w: SlidingWindow)
    requires
        w.wf(),
    ensures
        w.issued - w.completed <= w.window,
        w.completed >= w.target ==> w.issued == w.completed && w.completed == w.target,
{
}

/// The window of submitting thread `thread_index` when `concurrency`
/// operations are shared by `threads` threads: an equal share, and one
/// more for the first `concurrency % threads` threads.
pub open spec fn spec_thread_window(concurrency: nat, threads: nat, thread_index: nat) -> nat {
    concurrency / threads + if thread_index < concurrency % threads {
        1nat
    } else {
        0nat
    }
}

pub fn thread_window(concurrency: usize, threads: usize, thread_index: usize) -> (w: usize)
    requires
        threads > 0,
    ensures
        w == spec_thread_window(concurrency as nat, threads as nat, thread_index as nat),
{
    let base = concurrency / threads;
    let extra = concurrency % threads;
    assert(base * threads + extra == concurrency) by (nonlinear_arith)
        requires
            threads > 0,
            base == concurrency / threads,
            extra == concurrency % threads,
    ;
    assert(base + 1 <= concurrency || extra == 0) by (nonlinear_arith)
        requires
            threads > 0,
            base * threads + extra == concurrency,
            extra < threads,
    ;
    if thread_index < extra {
        base + 1
    } else {
        base
    }
}

/// The sum of the windows of the first `k` threads.
pub open spec fn windows_total(concurrency: nat, threads: nat, k: nat) -> nat
    decreases k,
{
    if k == 0 {
        0
    } else {
        windows_total(concurrency, threads, (k - 1) as nat) + spec_thread_window(
            concurrency,
            threads,
            (k - 1) as nat,
        )
    }
}

/// The windows of all threads add up to the whole concurrency.
pub proof fn law_thread_windows_cover(concurrency: nat, threads: nat)
    requires
        threads > 0,
    ensures
        windows_total(concurrency, threads, threads) == concurrency,
{
    let q = concurrency / threads;
    let r = concurrency % threads;
    assert(q * threads + r == concurrency && r < threads) by (nonlinear_arith)
        requires
            threads > 0,
            q == concurrency / threads,
            r == concurrency % threads,
    ;
    lemma_windows_prefix(concurrency, threads, threads);
    assert(threads * q + r == concurrency) by (nonlinear_arith)
        requires
            q * threads + r == concurrency,
    ;
}

proof fn lemma_windows_prefix(concurrency: nat, threads: nat, k: nat)
    requires
        threads > 0,
        k <= threads,
    ensures
        windows_total(concurrency, threads, k) == k * (concurrency / threads) + if k
            <= concurrency % threads {
            k
        } else {
            concurrency % threads
        },
    decreases k,
{
    if k > 0 {
        lemma_windows_prefix(concurrency, threads, (k - 1) as nat);
        let q = concurrency / threads;
        let r = concurrency % threads;
        assert(k * q == (k - 1) * q + q) by (nonlinear_arith);
        assert(windows_total(concurrency, threads, k) == windows_total(
            concurrency,
            threads,
            (k - 1) as nat,
        ) + spec_thread_window(concurrency, threads, (k - 1) as nat));
        if k <= r {
            assert(spec_thread_window(concurrency, threads, (k - 1) as nat) == q + 1);
            assert(windows_total(concurrency, threads, k) == k * q + k);
        } else {
            assert(spec_thread_window(concurrency, threads, (k - 1) as nat) == q);
            assert(windows_total(concurrency, threads, k) == k * q + r);
        }
    } else {
        assert(0 * (concurrency / threads) == 0);
    }
}

} // verus!
