//! Mechanism probes of completion visibility.
//!
//! The probes keep the submit/poll shape of the overlap experiment and vary
//! one thing at a time: the layout of the completion records, how far ahead
//! the poller prefetches, how the reads are timed, the cache state of the
//! records before the burst, or how many submits pass between polls. The
//! types here decide when to poll and what to prefetch, keep the trace of an
//! iteration and fold the iterations into a result compared to the
//! baseline probe.

use vstd::prelude::*;
use vstd::slice::slice_subrange;

use crate::common::CompletionOutcome;
use crate::config::DsaOperationClass;
use crate::overlap::{optional_stats_of, present_times};
use crate::stats::{
    is_stats_of, optional_stats, optional_stats_from_tsc_slice, stats_from_values, ticks_to_ns,
    LatencyStats,
};
use crate::trace::{
    append_slice, fill_prefix, filled, is_trace_point, last_status, sat_sub, trace_point,
    SubmitMarkerSampleTrace, SubmitMarkerSampleTracePoint,
};

verus! {

/// Bytes in a cacheline.
pub const CACHELINE_BYTES: usize = 64;

/// Bytes in a packed DSA completion record.
pub const COMPLETION_RECORD_BYTES: usize = 32;

/// Submits between polls unless a probe says otherwise.
pub const DEFAULT_POLL_SUBMIT_BATCH_N: usize = 1;

/// What the completion records hold in the cache before a burst.
#[derive(Copy, Clone, Debug, PartialEq, Eq, Structural)]
pub enum CacheState {
    ResetOnly,
    PreTouch,
    Clflush,
}

impl CacheState {
    pub open spec fn spec_name(self) -> Seq<char> {
        match self {
            CacheState::ResetOnly => "reset-only"@,
            CacheState::PreTouch => "pre-touch"@,
            CacheState::Clflush => "clflush"@,
        }
    }

    pub fn as_str(self) -> (s: &'static str)
        ensures
            s@ == self.spec_name(),
    {
        match self {
            CacheState::ResetOnly => "reset-only",
            CacheState::PreTouch => "pre-touch",
            CacheState::Clflush => "clflush",
        }
    }
}

/// Whether each status read is timed on its own or a whole poll event is
/// timed as one window.
#[derive(Copy, Clone, Debug, PartialEq, Eq, Structural)]
pub enum TimingMode {
    PerRead,
    BatchScan,
}

impl TimingMode {
    pub open spec fn spec_name(self) -> Seq<char> {
        match self {
            TimingMode::PerRead => "per-read"@,
            TimingMode::BatchScan => "batch-scan"@,
        }
    }

    pub fn as_str(self) -> (s: &'static str)
        ensures
            s@ == self.spec_name(),
    {
        match self {
            TimingMode::PerRead => "per-read",
            TimingMode::BatchScan => "batch-scan",
        }
    }
}

/// One probe: its labels and the knobs it sets.
#[derive(Copy, Clone, Debug)]
pub struct ProbeSpec {
    pub sub_experiment: &'static str,
    pub variant: &'static str,
    pub prefetch_distance_lines: usize,
    pub cache_state: CacheState,
    pub timing_mode: TimingMode,
    pub poll_submit_batch_n: usize,
}

impl ProbeSpec {
    /// The probe with these labels and knobs.
    pub open spec fn is(
        self,
        sub_experiment: Seq<char>,
        variant: Seq<char>,
        prefetch_distance_lines: usize,
        cache_state: CacheState,
        timing_mode: TimingMode,
        poll_submit_batch_n: usize,
    ) -> bool {
        &&& self.sub_experiment@ == sub_experiment
        &&& self.variant@ == variant
        &&& self.prefetch_distance_lines == prefetch_distance_lines
        &&& self.cache_state == cache_state
        &&& self.timing_mode == timing_mode
        &&& self.poll_submit_batch_n == poll_submit_batch_n
    }

    /// Packed records, no prefetch, records only reset, each read timed,
    /// a poll after every submit.
    pub fn baseline() -> (s: Self)
        ensures
            s.is(
                "baseline"@,
                "packed-32b"@,
                0,
                CacheState::ResetOnly,
                TimingMode::PerRead,
                DEFAULT_POLL_SUBMIT_BATCH_N,
            ),
    {
        ProbeSpec {
            sub_experiment: "baseline",
            variant: "packed-32b",
            prefetch_distance_lines: 0,
            cache_state: CacheState::ResetOnly,
            timing_mode: TimingMode::PerRead,
            poll_submit_batch_n: DEFAULT_POLL_SUBMIT_BATCH_N,
        }
    }

    /// A probe of the record layout.
    pub fn layout(
        variant: &'static str,
        prefetch_distance_lines: usize,
        cache_state: CacheState,
        timing_mode: TimingMode,
    ) -> (s: Self)
        ensures
            s.is(
                "layout"@,
                variant@,
                prefetch_distance_lines,
                cache_state,
                timing_mode,
                DEFAULT_POLL_SUBMIT_BATCH_N,
            ),
    {
        ProbeSpec {
            sub_experiment: "layout",
            variant,
            prefetch_distance_lines,
            cache_state,
            timing_mode,
            poll_submit_batch_n: DEFAULT_POLL_SUBMIT_BATCH_N,
        }
    }

    /// A probe of the prefetch distance.
    pub fn prefetch(
        variant: &'static str,
        prefetch_distance_lines: usize,
        cache_state: CacheState,
        timing_mode: TimingMode,
    ) -> (s: Self)
        ensures
            s.is(
                "prefetch"@,
                variant@,
                prefetch_distance_lines,
                cache_state,
                timing_mode,
                DEFAULT_POLL_SUBMIT_BATCH_N,
            ),
    {
        ProbeSpec {
            sub_experiment: "prefetch",
            variant,
            prefetch_distance_lines,
            cache_state,
            timing_mode,
            poll_submit_batch_n: DEFAULT_POLL_SUBMIT_BATCH_N,
        }
    }

    /// A probe of the timing method.
    pub fn measurement(
        variant: &'static str,
        prefetch_distance_lines: usize,
        cache_state: CacheState,
        timing_mode: TimingMode,
    ) -> (s: Self)
        ensures
            s.is(
                "measurement"@,
                variant@,
                prefetch_distance_lines,
                cache_state,
                timing_mode,
                DEFAULT_POLL_SUBMIT_BATCH_N,
            ),
    {
        ProbeSpec {
            sub_experiment: "measurement",
            variant,
            prefetch_distance_lines,
            cache_state,
            timing_mode,
            poll_submit_batch_n: DEFAULT_POLL_SUBMIT_BATCH_N,
        }
    }

    /// A probe of the cache state before the burst.
    pub fn cache_state(
        variant: &'static str,
        prefetch_distance_lines: usize,
        cache_state: CacheState,
        timing_mode: TimingMode,
    ) -> (s: Self)
        ensures
            s.is(
                "cache-state"@,
                variant@,
                prefetch_distance_lines,
                cache_state,
                timing_mode,
                DEFAULT_POLL_SUBMIT_BATCH_N,
            ),
    {
        ProbeSpec {
            sub_experiment: "cache-state",
            variant,
            prefetch_distance_lines,
            cache_state,
            timing_mode,
            poll_submit_batch_n: DEFAULT_POLL_SUBMIT_BATCH_N,
        }
    }

    /// The baseline, polling after every `poll_submit_batch_n` submits.
    pub fn poll_submit_batch(poll_submit_batch_n: usize) -> (s: Self)
        ensures
            s.is(
                "poll-submit-batch"@,
                "configured"@,
                0,
                CacheState::ResetOnly,
                TimingMode::PerRead,
                poll_submit_batch_n,
            ),
    {
        ProbeSpec {
            sub_experiment: "poll-submit-batch",
            variant: "configured",
            prefetch_distance_lines: 0,
            cache_state: CacheState::ResetOnly,
            timing_mode: TimingMode::PerRead,
            poll_submit_batch_n,
        }
    }
}

/// Which half of its cacheline a record at `addr` starts in: 0 for the
/// first 32 bytes, 1 for the rest.
pub open spec fn spec_line_position(addr: usize) -> usize {
    let p = (addr % 64) / 32;
    if p < 1 {
        p as usize
    } else {
        1
    }
}

/// The half of its cacheline that a completion record at `addr` starts in.
pub fn line_position(addr: usize) -> (p: usize)
    ensures
        p == spec_line_position(addr),
        p <= 1,
{
    let p = (addr & (CACHELINE_BYTES - 1)) / COMPLETION_RECORD_BYTES;
    assert(addr & 63usize == addr % 64) by (bit_vector);
    if p < 1 {
        p
    } else {
        1
    }
}

/// The start of the cacheline that holds `addr`.
pub fn cacheline_start(addr: usize) -> (line: usize)
    ensures
        line == addr - addr % 64,
{
    let line = addr & !(CACHELINE_BYTES - 1);
    assert(addr & !63usize == addr - addr % 64) by (bit_vector);
    line
}

/// The line to prefetch before reading the record at `completion_addr`:
/// the line `distance_lines` lines past the record's own, when the probe
/// prefetches at all and that line lies inside the records' storage
/// `[base, base + storage_len)`.
pub fn prefetch_target(
    completion_addr: usize,
    distance_lines: usize,
    base: usize,
    storage_len: usize,
) -> (target: Option<usize>)
    requires
        completion_addr - completion_addr % 64 + 64 * distance_lines <= usize::MAX,
        base + storage_len <= usize::MAX,
    ensures
        ({
            let line = completion_addr - completion_addr % 64 + 64 * distance_lines;
            target == if distance_lines != 0 && base <= line < base + storage_len {
                Some(line as usize)
            } else {
                None::<usize>
            }
        }),
{
    if distance_lines == 0 {
        return None;
    }
    let current_line = cacheline_start(completion_addr);
    let target_line = current_line + CACHELINE_BYTES * distance_lines;
    let end = base + storage_len;
    if target_line >= base && target_line < end {
        Some(target_line)
    } else {
        None
    }
}

/// Whether to poll after submit `submit_index` of `n`: from `poll_offset`
/// on, after every `poll_submit_batch_n`-th submit counted from there, and
/// after the last submit.
pub open spec fn spec_should_poll_after_submit(
    submit_index: int,
    n: int,
    poll_offset: int,
    poll_submit_batch_n: int,
) -> bool {
    submit_index >= poll_offset && ((submit_index - poll_offset + 1) % poll_submit_batch_n == 0
        || submit_index + 1 == n)
}

pub fn should_poll_after_submit(
    submit_index: usize,
    n: usize,
    poll_offset: usize,
    poll_submit_batch_n: usize,
) -> (poll: bool)
    requires
        poll_submit_batch_n != 0,
        submit_index < usize::MAX,
    ensures
        poll == spec_should_poll_after_submit(
            submit_index as int,
            n as int,
            poll_offset as int,
            poll_submit_batch_n as int,
        ),
{
    if submit_index < poll_offset {
        return false;
    }
    let submitted_since_poll_start = submit_index - poll_offset + 1;
    submitted_since_poll_start % poll_submit_batch_n == 0 || submit_index + 1 == n
}

/// The poll schedule: no poll before the offset, always one after the last
/// submit once the offset is reached, and with a batch of one a poll after
/// every submit from the offset on.
pub proof fn law_poll_schedule(n: int, poll_offset: int, poll_submit_batch_n: int)
    requires
        poll_submit_batch_n > 0,
        0 <= poll_offset < n,
    ensures
        spec_should_poll_after_submit(n - 1, n, poll_offset, poll_submit_batch_n),
        forall|i: int|
            0 <= i < poll_offset ==> !#[trigger] spec_should_poll_after_submit(
                i,
                n,
                poll_offset,
                poll_submit_batch_n,
            ),
        poll_submit_batch_n == 1 ==> forall|i: int|
            poll_offset <= i < n ==> #[trigger] spec_should_poll_after_submit(
                i,
                n,
                poll_offset,
                poll_submit_batch_n,
            ),
{
    assert forall|i: int| poll_offset <= i < n && poll_submit_batch_n == 1 implies #[trigger]
        spec_should_poll_after_submit(i, n, poll_offset, poll_submit_batch_n) by {
        assert((i - poll_offset + 1) % 1 == 0) by (nonlinear_arith);
    }
}

/// The poll-submit batch sizes that get a probe of their own: every
/// configured size but the default of one, in order.
pub open spec fn probe_batches(poll_submit_batches: Seq<usize>) -> Seq<usize> {
    poll_submit_batches.filter(|b: usize| b != DEFAULT_POLL_SUBMIT_BATCH_N)
}

/// The probes run for one burst size and poll offset, in order: the
/// packed baseline, one poll-submit-batch probe per batch size of
/// `probe_batches`, the prefetch probes at one, two and four lines ahead,
/// batch-scan timing, the pre-touch and clflush cache states, and last the
/// padded 64-byte layout. Every probe after the first is compared with it.
pub open spec fn is_probe_plan(specs: Seq<ProbeSpec>, poll_submit_batches: Seq<usize>) -> bool {
    let batches = probe_batches(poll_submit_batches);
    let m = batches.len() as int;
    &&& specs.len() == m + 8
    &&& specs[0].is(
        "baseline"@,
        "packed-32b"@,
        0,
        CacheState::ResetOnly,
        TimingMode::PerRead,
        DEFAULT_POLL_SUBMIT_BATCH_N,
    )
    &&& forall|k: int|
        0 <= k < m ==> specs[k + 1].is(
            "poll-submit-batch"@,
            "configured"@,
            0,
            CacheState::ResetOnly,
            TimingMode::PerRead,
            #[trigger] batches[k],
        )
    &&& specs[m + 1].is(
        "prefetch"@,
        "prefetch-1-lines"@,
        1,
        CacheState::ResetOnly,
        TimingMode::PerRead,
        DEFAULT_POLL_SUBMIT_BATCH_N,
    )
    &&& specs[m + 2].is(
        "prefetch"@,
        "prefetch-2-lines"@,
        2,
        CacheState::ResetOnly,
        TimingMode::PerRead,
        DEFAULT_POLL_SUBMIT_BATCH_N,
    )
    &&& specs[m + 3].is(
        "prefetch"@,
        "prefetch-4-lines"@,
        4,
        CacheState::ResetOnly,
        TimingMode::PerRead,
        DEFAULT_POLL_SUBMIT_BATCH_N,
    )
    &&& specs[m + 4].is(
        "measurement"@,
        "batch-scan-timing"@,
        0,
        CacheState::ResetOnly,
        TimingMode::BatchScan,
        DEFAULT_POLL_SUBMIT_BATCH_N,
    )
    &&& specs[m + 5].is(
        "cache-state"@,
        "pre-touch"@,
        0,
        CacheState::PreTouch,
        TimingMode::PerRead,
        DEFAULT_POLL_SUBMIT_BATCH_N,
    )
    &&& specs[m + 6].is(
        "cache-state"@,
        "clflush"@,
        0,
        CacheState::Clflush,
        TimingMode::PerRead,
        DEFAULT_POLL_SUBMIT_BATCH_N,
    )
    &&& specs[m + 7].is(
        "layout"@,
        "padded-64b"@,
        0,
        CacheState::ResetOnly,
        TimingMode::PerRead,
        DEFAULT_POLL_SUBMIT_BATCH_N,
    )
}

/// The probe schedule of the mechanism experiment for the configured
/// poll-submit batch sizes; the last probe runs on padded completion
/// records, every other one on packed records.
pub fn mechanism_probe_plan(poll_submit_batches: &[usize]) -> (specs: Vec<ProbeSpec>)
    ensures
        is_probe_plan(specs@, poll_submit_batches@),
{
    let ghost pb = poll_submit_batches@;
    let mut specs: Vec<ProbeSpec> = Vec::new();
    specs.push(ProbeSpec::baseline());
    let mut i: usize = 0;
    while i < poll_submit_batches.len()
        invariant
            i <= pb.len(),
            pb == poll_submit_batches@,
            specs@.len() == probe_batches(pb.subrange(0, i as int)).len() + 1,
            specs@[0].is(
                "baseline"@,
                "packed-32b"@,
                0,
                CacheState::ResetOnly,
                TimingMode::PerRead,
                DEFAULT_POLL_SUBMIT_BATCH_N,
            ),
            forall|k: int|
                0 <= k < probe_batches(pb.subrange(0, i as int)).len() ==> specs@[k + 1].is(
                    "poll-submit-batch"@,
                    "configured"@,
                    0,
                    CacheState::ResetOnly,
                    TimingMode::PerRead,
                    #[trigger] probe_batches(pb.subrange(0, i as int))[k],
                ),
        decreases pb.len() - i,
    {
        proof {
            let pre = pb.subrange(0, i + 1);
            assert(pre.drop_last() =~= pb.subrange(0, i as int));
            pb.subrange(0, i as int).lemma_filter_push(
                pb[i as int],
                |b: usize| b != DEFAULT_POLL_SUBMIT_BATCH_N,
            );
            assert(pb.subrange(0, i as int).push(pb[i as int]) =~= pre);
        }
        let b = poll_submit_batches[i];
        if b != DEFAULT_POLL_SUBMIT_BATCH_N {
            specs.push(ProbeSpec::poll_submit_batch(b));
        }
        i = i + 1;
    }
    assert(pb.subrange(0, pb.len() as int) =~= pb);
    specs.push(ProbeSpec::prefetch("prefetch-1-lines", 1, CacheState::ResetOnly, TimingMode::PerRead));
    specs.push(ProbeSpec::prefetch("prefetch-2-lines", 2, CacheState::ResetOnly, TimingMode::PerRead));
    specs.push(ProbeSpec::prefetch("prefetch-4-lines", 4, CacheState::ResetOnly, TimingMode::PerRead));
    specs.push(
        ProbeSpec::measurement("batch-scan-timing", 0, CacheState::ResetOnly, TimingMode::BatchScan),
    );
    specs.push(ProbeSpec::cache_state("pre-touch", 0, CacheState::PreTouch, TimingMode::PerRead));
    specs.push(ProbeSpec::cache_state("clflush", 0, CacheState::Clflush, TimingMode::PerRead));
    specs.push(ProbeSpec::layout("padded-64b", 0, CacheState::ResetOnly, TimingMode::PerRead));
    specs
}

/// Consecutive packed records alternate between the two halves of their
/// cacheline.
pub proof fn law_packed_records_alternate(addr: usize)
    requires
        addr + COMPLETION_RECORD_BYTES <= usize::MAX,
    ensures
        addr % 32 == 0 ==> spec_line_position(addr) != spec_line_position(
            (addr + COMPLETION_RECORD_BYTES) as usize,
        ),
{
    let a = addr as int;
    assert(a % 32 == 0 ==> ((a % 64) / 32 == 0 <==> ((a + 32) % 64) / 32 == 1)) by (nonlinear_arith)
        requires
            a >= 0,
    ;
}

/// The bytes of a buffer of `len` bytes touched to fault its pages in: the
/// first byte of every 4 KiB page, then the last byte.
pub open spec fn spec_page_touch_offsets(len: nat) -> Seq<usize> {
    let pages = Seq::new((len + 4095) / 4096, |k: int| (k * 4096) as usize);
    if len == 0 {
        pages
    } else {
        pages.push((len - 1) as usize)
    }
}

pub fn page_touch_offsets(len: usize) -> (offsets: Vec<usize>)
    ensures
        offsets@ == spec_page_touch_offsets(len as nat),
{
    let mut offsets: Vec<usize> = Vec::new();
    let mut offset: usize = 0;
    let mut k: usize = 0;
    let ghost pages = Seq::new((len as nat + 4095) / 4096, |k: int| (k * 4096) as usize);
    while offset < len
        invariant
            offset == k * 4096,
            k <= (len as nat + 4095) / 4096,
            offset < len ==> k < (len as nat + 4095) / 4096,
            offset >= len ==> k == (len as nat + 4095) / 4096,
            offsets@ == pages.subrange(0, k as int),
            pages == Seq::new((len as nat + 4095) / 4096, |k: int| (k * 4096) as usize),
        decreases len - offset,
    {
        offsets.push(offset);
        proof {
            assert(offsets@ =~= pages.subrange(0, k + 1));
        }
        k = k + 1;
        if len >= 4096 && offset <= len - 4096 {
            offset = offset + 4096;
            assert(offset < len ==> k < (len as nat + 4095) / 4096) by (nonlinear_arith)
                requires
                    offset == k * 4096,
                    k >= 1,
            ;
            assert(offset >= len ==> k == (len as nat + 4095) / 4096) by (nonlinear_arith)
                requires
                    offset == k * 4096,
                    offset - 4096 < len,
                    k >= 1,
            ;
        } else {
            assert(k == (len as nat + 4095) / 4096) by (nonlinear_arith)
                requires
                    (k - 1) * 4096 < len,
                    len < (k - 1) * 4096 + 4096,
                    k >= 1,
            ;
            assert(offsets@ =~= pages);
            if len > 0 {
                offsets.push(len - 1);
            }
            return offsets;
        }
    }
    assert(offsets@ =~= pages);
    if len > 0 {
        offsets.push(len - 1);
    }
    offsets
}

/// Tracks runs of visible reads within one cacheline: a read in a new line
/// starts a run of one, a read in the same line extends it. Returns the
/// length of the run including this read.
pub fn advance_line_run(
    current_line: &mut Option<usize>,
    visible_reads_in_line: &mut u64,
    completion_addr: usize,
) -> (reads: u64)
    requires
        *old(current_line) == Some((completion_addr - completion_addr % 64) as usize)
            ==> *old(visible_reads_in_line) < u64::MAX,
    ensures
        ({
            let line = (completion_addr - completion_addr % 64) as usize;
            &&& *final(current_line) == Some(line)
            &&& reads == if *old(current_line) == Some(line) {
                *old(visible_reads_in_line) + 1
            } else {
                1
            }
            &&& *final(visible_reads_in_line) == reads
        }),
{
    let line = cacheline_start(completion_addr);
    let same = match *current_line {
        Some(l) => l == line,
        None => false,
    };
    if !same {
        *current_line = Some(line);
        *visible_reads_in_line = 0;
    }
    *visible_reads_in_line = *visible_reads_in_line + 1;
    *visible_reads_in_line
}

/// The submit and poll timings of one probe iteration, indexed by submit
/// index. The reads of every poll event are stored back to back; per-read
/// latencies are stored only when reads are timed one by one, and a poll
/// window only when the event is timed as a whole.
pub struct IterationTrace {
    submit_start_tscs: Vec<u64>,
    submit_end_tscs: Vec<u64>,
    poll_event_offsets: Vec<usize>,
    poll_event_counts: Vec<usize>,
    poll_latency_offsets: Vec<usize>,
    poll_latency_counts: Vec<usize>,
    poll_visible_prefix_lens: Vec<u64>,
    poll_window_tsc_ticks: Vec<Option<u64>>,
    poll_event_request_indices: Vec<usize>,
    poll_event_statuses: Vec<u8>,
    poll_event_latency_tsc_ticks: Vec<u64>,
}

pub ghost struct ProbeTraceView {
    pub starts: Seq<u64>,
    pub ends: Seq<u64>,
    pub offsets: Seq<usize>,
    pub counts: Seq<usize>,
    pub latency_offsets: Seq<usize>,
    pub latency_counts: Seq<usize>,
    pub prefixes: Seq<u64>,
    pub windows: Seq<Option<u64>>,
    pub requests: Seq<usize>,
    pub statuses: Seq<u8>,
    pub latencies: Seq<u64>,
}

impl ProbeTraceView {
    /// One slot per submit index; one status per read.
    pub open spec fn wf(self) -> bool {
        &&& self.ends.len() == self.starts.len()
        &&& self.offsets.len() == self.starts.len()
        &&& self.counts.len() == self.starts.len()
        &&& self.latency_offsets.len() == self.starts.len()
        &&& self.latency_counts.len() == self.starts.len()
        &&& self.prefixes.len() == self.starts.len()
        &&& self.windows.len() == self.starts.len()
        &&& self.statuses.len() == self.requests.len()
    }

    /// The poll event after submit `k` lies inside the read lists.
    pub open spec fn event_in_bounds(self, k: int) -> bool {
        &&& self.offsets[k] + self.counts[k] <= self.requests.len()
        &&& self.latency_offsets[k] + self.latency_counts[k] <= self.latencies.len()
    }

    pub open spec fn event_requests(self, k: int) -> Seq<usize> {
        self.requests.subrange(self.offsets[k] as int, self.offsets[k] + self.counts[k])
    }

    pub open spec fn event_statuses(self, k: int) -> Seq<u8> {
        self.statuses.subrange(self.offsets[k] as int, self.offsets[k] + self.counts[k])
    }

    pub open spec fn event_latencies(self, k: int) -> Seq<u64> {
        self.latencies.subrange(
            self.latency_offsets[k] as int,
            self.latency_offsets[k] + self.latency_counts[k],
        )
    }

    /// The trace point of submit `k`: no times relative to a marker.
    pub open spec fn is_point(self, p: SubmitMarkerSampleTracePoint, k: int) -> bool {
        is_trace_point(
            p,
            k as usize,
            self.starts[k],
            self.ends[k],
            None,
            self.windows[k],
            self.prefixes[k],
            self.event_requests(k),
            self.event_latencies(k),
            self.event_statuses(k),
        )
    }
}

impl View for IterationTrace {
    type V = ProbeTraceView;

    closed spec fn view(&self) -> ProbeTraceView {
        ProbeTraceView {
            starts: self.submit_start_tscs@,
            ends: self.submit_end_tscs@,
            offsets: self.poll_event_offsets@,
            counts: self.poll_event_counts@,
            latency_offsets: self.poll_latency_offsets@,
            latency_counts: self.poll_latency_counts@,
            prefixes: self.poll_visible_prefix_lens@,
            windows: self.poll_window_tsc_ticks@,
            requests: self.poll_event_request_indices@,
            statuses: self.poll_event_statuses@,
            latencies: self.poll_event_latency_tsc_ticks@,
        }
    }
}

impl IterationTrace {
    /// The slot values of a trace just cleared.
    pub open spec fn is_cleared(v: ProbeTraceView, n: nat) -> bool {
        &&& v.wf()
        &&& v.starts.len() == n
        &&& v.requests.len() == 0
        &&& v.latencies.len() == 0
        &&& forall|k: int|
            0 <= k < n ==> {
                &&& #[trigger] v.starts[k] == 0
                &&& v.ends[k] == 0
                &&& v.offsets[k] == 0
                &&& v.counts[k] == 0
                &&& v.latency_offsets[k] == 0
                &&& v.latency_counts[k] == 0
                &&& v.prefixes[k] == 0
                &&& v.windows[k] is None
            }
    }

    pub fn new(n: usize) -> (t: Self)
        ensures
            Self::is_cleared(t@, n as nat),
    {
        IterationTrace {
            submit_start_tscs: filled(0u64, n),
            submit_end_tscs: filled(0u64, n),
            poll_event_offsets: filled(0usize, n),
            poll_event_counts: filled(0usize, n),
            poll_latency_offsets: filled(0usize, n),
            poll_latency_counts: filled(0usize, n),
            poll_visible_prefix_lens: filled(0u64, n),
            poll_window_tsc_ticks: filled(None, n),
            poll_event_request_indices: Vec::new(),
            poll_event_statuses: Vec::new(),
            poll_event_latency_tsc_ticks: Vec::new(),
        }
    }

    /// Clears every slot and every read.
    pub fn reset(&mut self)
        requires
            old(self)@.wf(),
        ensures
            Self::is_cleared(final(self)@, old(self)@.starts.len()),
    {
        let n = self.submit_start_tscs.len();
        fill_prefix(&mut self.submit_start_tscs, n, 0);
        fill_prefix(&mut self.submit_end_tscs, n, 0);
        fill_prefix(&mut self.poll_event_offsets, n, 0);
        fill_prefix(&mut self.poll_event_counts, n, 0);
        fill_prefix(&mut self.poll_latency_offsets, n, 0);
        fill_prefix(&mut self.poll_latency_counts, n, 0);
        fill_prefix(&mut self.poll_visible_prefix_lens, n, 0);
        fill_prefix(&mut self.poll_window_tsc_ticks, n, None);
        self.poll_event_request_indices.clear();
        self.poll_event_statuses.clear();
        self.poll_event_latency_tsc_ticks.clear();
    }

    pub fn record_submit(&mut self, submit_index: usize, start_tsc: u64, end_tsc: u64)
        requires
            old(self)@.wf(),
            submit_index < old(self)@.starts.len(),
        ensures
            final(self)@ == (ProbeTraceView {
                starts: old(self)@.starts.update(submit_index as int, start_tsc),
                ends: old(self)@.ends.update(submit_index as int, end_tsc),
                ..old(self)@
            }),
    {
        self.submit_start_tscs[submit_index] = start_tsc;
        self.submit_end_tscs[submit_index] = end_tsc;
    }

    /// The poll event after submit `submit_index` starts at the current end
    /// of the read lists.
    pub fn begin_poll_event(&mut self, submit_index: usize)
        requires
            old(self)@.wf(),
            submit_index < old(self)@.starts.len(),
        ensures
            final(self)@ == (ProbeTraceView {
                offsets: old(self)@.offsets.update(
                    submit_index as int,
                    old(self)@.requests.len() as usize,
                ),
                latency_offsets: old(self)@.latency_offsets.update(
                    submit_index as int,
                    old(self)@.latencies.len() as usize,
                ),
                ..old(self)@
            }),
    {
        let requests = self.poll_event_request_indices.len();
        let latencies = self.poll_event_latency_tsc_ticks.len();
        self.poll_event_offsets[submit_index] = requests;
        self.poll_latency_offsets[submit_index] = latencies;
    }

    /// One status read of request `completion_index`, with its latency
    /// when reads are timed one by one.
    pub fn record_poll_read(&mut self, completion_index: usize, status: u8, latency_tsc: Option<u64>)
        requires
            old(self)@.wf(),
        ensures
            final(self)@ == (ProbeTraceView {
                requests: old(self)@.requests.push(completion_index),
                statuses: old(self)@.statuses.push(status),
                latencies: match latency_tsc {
                    Some(l) => old(self)@.latencies.push(l),
                    None => old(self)@.latencies,
                },
                ..old(self)@
            }),
    {
        self.poll_event_request_indices.push(completion_index);
        self.poll_event_statuses.push(status);
        if let Some(l) = latency_tsc {
            self.poll_event_latency_tsc_ticks.push(l);
        }
    }

    /// Closes the poll event after submit `submit_index`: it holds the
    /// reads since it began, and records the visible prefix and the poll
    /// window.
    pub fn finish_poll_event(
        &mut self,
        submit_index: usize,
        visible_prefix_len: u64,
        poll_window_tsc: Option<u64>,
    )
        requires
            old(self)@.wf(),
            submit_index < old(self)@.starts.len(),
            old(self)@.offsets[submit_index as int] <= old(self)@.requests.len(),
            old(self)@.latency_offsets[submit_index as int] <= old(self)@.latencies.len(),
        ensures
            final(self)@ == (ProbeTraceView {
                counts: old(self)@.counts.update(
                    submit_index as int,
                    (old(self)@.requests.len() - old(self)@.offsets[submit_index as int]) as usize,
                ),
                latency_counts: old(self)@.latency_counts.update(
                    submit_index as int,
                    (old(self)@.latencies.len() - old(
                        self,
                    )@.latency_offsets[submit_index as int]) as usize,
                ),
                prefixes: old(self)@.prefixes.update(submit_index as int, visible_prefix_len),
                windows: old(self)@.windows.update(submit_index as int, poll_window_tsc),
                ..old(self)@
            }),
            final(self)@.event_in_bounds(submit_index as int),
    {
        let requests = self.poll_event_request_indices.len();
        let latencies = self.poll_event_latency_tsc_ticks.len();
        self.poll_event_counts[submit_index] = requests - self.poll_event_offsets[submit_index];
        self.poll_latency_counts[submit_index] = latencies
            - self.poll_latency_offsets[submit_index];
        self.poll_visible_prefix_lens[submit_index] = visible_prefix_len;
        self.poll_window_tsc_ticks[submit_index] = poll_window_tsc;
    }

    /// The trace point of submit `submit_index`.
    pub fn sample_trace_point(&self, submit_index: usize) -> (p: SubmitMarkerSampleTracePoint)
        requires
            self@.wf(),
            submit_index < self@.starts.len(),
            self@.event_in_bounds(submit_index as int),
        ensures
            self@.is_point(p, submit_index as int),
    {
        let requests = self.poll_event_request_indices.len();
        let latencies = self.poll_event_latency_tsc_ticks.len();
        let event_start = self.poll_event_offsets[submit_index];
        let event_end = event_start + self.poll_event_counts[submit_index];
        let latency_start = self.poll_latency_offsets[submit_index];
        let latency_end = latency_start + self.poll_latency_counts[submit_index];
        trace_point(
            submit_index,
            self.submit_start_tscs[submit_index],
            self.submit_end_tscs[submit_index],
            None,
            self.poll_window_tsc_ticks[submit_index],
            self.poll_visible_prefix_lens[submit_index],
            slice_subrange(self.poll_event_request_indices.as_slice(), event_start, event_end),
            slice_subrange(self.poll_event_latency_tsc_ticks.as_slice(), latency_start, latency_end),
            slice_subrange(self.poll_event_statuses.as_slice(), event_start, event_end),
        )
    }

    /// The trace of every submit index of iteration `iteration_index`.
    pub fn to_sample_trace(&self, iteration_index: usize) -> (t: SubmitMarkerSampleTrace)
        requires
            self@.wf(),
            forall|k: int| 0 <= k < self@.starts.len() ==> #[trigger] self@.event_in_bounds(k),
        ensures
            t.iteration_index == iteration_index,
            t.points@.len() == self@.starts.len(),
            forall|k: int| 0 <= k < self@.starts.len() ==> self@.is_point(#[trigger] t.points@[k], k),
    {
        let n = self.submit_start_tscs.len();
        let mut points: Vec<SubmitMarkerSampleTracePoint> = Vec::new();
        let mut submit_index: usize = 0;
        while submit_index < n
            invariant
                self@.wf(),
                n == self@.starts.len(),
                forall|k: int| 0 <= k < n ==> #[trigger] self@.event_in_bounds(k),
                submit_index <= n,
                points@.len() == submit_index,
                forall|k: int| 0 <= k < submit_index ==> self@.is_point(#[trigger] points@[k], k),
            decreases n - submit_index,
        {
            assert(self@.event_in_bounds(submit_index as int));
            points.push(self.sample_trace_point(submit_index));
            submit_index = submit_index + 1;
        }
        SubmitMarkerSampleTrace { iteration_index, points }
    }
}

/// `after` is `before` with one more status read recorded: the request
/// read, its status, and its latency when it was timed on its own.
pub open spec fn records_read(
    before: ProbeTraceView,
    after: ProbeTraceView,
    completion_index: usize,
    status: u8,
    latency_tsc: Option<u64>,
) -> bool {
    after == (ProbeTraceView {
        requests: before.requests.push(completion_index),
        statuses: before.statuses.push(status),
        latencies: match latency_tsc {
            Some(l) => before.latencies.push(l),
            None => before.latencies,
        },
        ..before
    })
}

proof fn lemma_present_times_len(times: Seq<Option<u64>>)
    ensures
        present_times(times).len() <= times.len(),
    decreases times.len(),
{
    if times.len() > 0 {
        lemma_present_times_len(times.drop_last());
    }
}

/// After the first `j` reads, every field is as before the reads except
/// that the reads were appended.
proof fn lemma_reads_prefix(
    reads: Seq<ProbeTraceView>,
    requests: Seq<usize>,
    statuses: Seq<u8>,
    latencies: Seq<Option<u64>>,
    j: int,
)
    requires
        0 <= j <= requests.len(),
        statuses.len() == requests.len(),
        latencies.len() == requests.len(),
        reads.len() == requests.len() + 1,
        forall|r: int|
            0 <= r < requests.len() ==> records_read(
                reads[r],
                reads[r + 1],
                #[trigger] requests[r],
                statuses[r],
                latencies[r],
            ),
    ensures
        reads[j] == (ProbeTraceView {
            requests: reads[0].requests + requests.subrange(0, j),
            statuses: reads[0].statuses + statuses.subrange(0, j),
            latencies: reads[0].latencies + present_times(latencies.subrange(0, j)),
            ..reads[0]
        }),
    decreases j,
{
    if j == 0 {
        assert(reads[0].requests + requests.subrange(0, 0) =~= reads[0].requests);
        assert(reads[0].statuses + statuses.subrange(0, 0) =~= reads[0].statuses);
        assert(latencies.subrange(0, 0) =~= Seq::<Option<u64>>::empty());
        assert(reads[0].latencies + present_times(latencies.subrange(0, 0)) =~= reads[0].latencies);
    } else {
        let r = j - 1;
        lemma_reads_prefix(reads, requests, statuses, latencies, r);
        assert(records_read(reads[r], reads[r + 1], requests[r], statuses[r], latencies[r]));
        assert(reads[0].requests + requests.subrange(0, j) =~= (reads[0].requests
            + requests.subrange(0, r)).push(requests[r]));
        assert(reads[0].statuses + statuses.subrange(0, j) =~= (reads[0].statuses
            + statuses.subrange(0, r)).push(statuses[r]));
        assert(latencies.subrange(0, j).drop_last() =~= latencies.subrange(0, r));
        let before = reads[0].latencies + present_times(latencies.subrange(0, r));
        match latencies[r] {
            Some(l) => {
                assert(reads[0].latencies + present_times(latencies.subrange(0, j)) =~= before.push(l));
            },
            None => {
                assert(reads[0].latencies + present_times(latencies.subrange(0, j)) =~= before);
            },
        }
    }
}

/// The trace point of one submit of a freshly reset trace of `n` submits
/// (as `IterationTrace::new` or `reset` leaves it), after `record_submit`,
/// `begin_poll_event`, one `record_poll_read` per read and
/// `finish_poll_event`, as `sample_trace_point` returns it:
/// the submit `submit_index` was timed from `start_tsc` to `end_tsc`, then
/// a poll event began, read the requests `requests` with the statuses
/// `statuses` (and the latencies `latencies` of the reads timed one by
/// one), and finished with the visible prefix `visible_prefix_len` and the
/// poll window `poll_window`. Each step is the one the matching method
/// states. The point has the submit's index and duration, exactly those
/// reads, the latencies that were timed in order, as many polls as reads,
/// the prefix and window given, no times from a marker, and the last
/// status read (none when nothing was read). The reads are held in a
/// vector, so there are at most `usize::MAX` of them.
#[verifier::spinoff_prover]
#[verifier::rlimit(60)]
pub proof fn law_probe_point_after_reads(
    cleared: ProbeTraceView,
    submitted: ProbeTraceView,
    begun: ProbeTraceView,
    reads: Seq<ProbeTraceView>,
    finished: ProbeTraceView,
    n: nat,
    submit_index: usize,
    start_tsc: u64,
    end_tsc: u64,
    requests: Seq<usize>,
    statuses: Seq<u8>,
    latencies: Seq<Option<u64>>,
    visible_prefix_len: u64,
    poll_window: Option<u64>,
    p: SubmitMarkerSampleTracePoint,
)
    requires
        IterationTrace::is_cleared(cleared, n),
        submit_index < n,
        requests.len() <= usize::MAX,
        submitted == (ProbeTraceView {
            starts: cleared.starts.update(submit_index as int, start_tsc),
            ends: cleared.ends.update(submit_index as int, end_tsc),
            ..cleared
        }),
        begun == (ProbeTraceView {
            offsets: submitted.offsets.update(
                submit_index as int,
                submitted.requests.len() as usize,
            ),
            latency_offsets: submitted.latency_offsets.update(
                submit_index as int,
                submitted.latencies.len() as usize,
            ),
            ..submitted
        }),
        statuses.len() == requests.len(),
        latencies.len() == requests.len(),
        reads.len() == requests.len() + 1,
        reads[0] == begun,
        forall|r: int|
            0 <= r < requests.len() ==> records_read(
                reads[r],
                reads[r + 1],
                #[trigger] requests[r],
                statuses[r],
                latencies[r],
            ),
        ({
            let last = reads[requests.len() as int];
            finished == (ProbeTraceView {
                counts: last.counts.update(
                    submit_index as int,
                    (last.requests.len() - last.offsets[submit_index as int]) as usize,
                ),
                latency_counts: last.latency_counts.update(
                    submit_index as int,
                    (last.latencies.len() - last.latency_offsets[submit_index as int]) as usize,
                ),
                prefixes: last.prefixes.update(submit_index as int, visible_prefix_len),
                windows: last.windows.update(submit_index as int, poll_window),
                ..last
            })
        }),
        finished.is_point(p, submit_index as int),
    ensures
        p.submit_index == submit_index,
        p.submit_tsc_ticks == sat_sub(end_tsc, start_tsc),
        p.polled_request_indices@ == requests,
        p.polled_statuses@ == statuses,
        p.poll_latency_tsc_ticks@ == present_times(latencies),
        p.poll_count == requests.len(),
        p.poll_performed == (requests.len() > 0),
        p.visible_prefix_len == visible_prefix_len,
        p.poll_window_tsc_ticks == poll_window,
        p.submit_start_from_marker_tsc is None,
        p.submit_end_from_marker_tsc is None,
        p.poll_end_from_marker_tsc is None,
        p.polled_status == last_status(statuses),
        p.marker_status == last_status(statuses),
{
    let k = requests.len() as int;
    let i = submit_index as int;
    lemma_reads_prefix(reads, requests, statuses, latencies, k);
    assert(cleared.starts[i] == 0);
    assert(cleared.offsets[i] == 0 && cleared.latency_offsets[i] == 0);
    assert(submitted.requests.len() == 0 && submitted.latencies.len() == 0);
    assert(begun.offsets[i] == 0 && begun.latency_offsets[i] == 0);
    assert(begun.starts[i] == start_tsc && begun.ends[i] == end_tsc);
    let last = reads[k];
    assert(requests.subrange(0, k) =~= requests);
    assert(statuses.subrange(0, k) =~= statuses);
    assert(latencies.subrange(0, k) =~= latencies);
    assert(last.requests =~= requests);
    assert(last.statuses =~= statuses);
    assert(last.latencies =~= present_times(latencies));
    assert(last.offsets == begun.offsets && last.latency_offsets == begun.latency_offsets);
    assert(last.starts == begun.starts && last.ends == begun.ends);
    assert(finished.offsets[i] == 0 && finished.latency_offsets[i] == 0);
    assert(present_times(latencies).len() <= latencies.len()) by {
        lemma_present_times_len(latencies);
    }
    assert(finished.counts[i] == k);
    assert(finished.latency_counts[i] == present_times(latencies).len());
    assert(finished.starts[i] == start_tsc && finished.ends[i] == end_tsc);
    assert(finished.prefixes[i] == visible_prefix_len && finished.windows[i] == poll_window);
    assert(finished.event_requests(i) =~= requests);
    assert(finished.event_statuses(i) =~= statuses);
    assert(finished.event_latencies(i) =~= present_times(latencies));
}

/// The name under which probe results are reported.
pub open spec fn mechanism_benchmark_name() -> Seq<char> {
    "submit_marker_mechanism"@
}

/// How the completion records of a probe lie in memory: the layout's name,
/// the distance and alignment of consecutive records, and the address of
/// the first.
#[derive(Copy, Clone, Debug)]
pub struct CompletionLayout {
    pub name: &'static str,
    pub stride_bytes: usize,
    pub alignment_bytes: usize,
    pub base_addr: usize,
}

/// How far a probe's median lies from the baseline's, in nanoseconds: the
/// difference, and the two medians it was taken from.
#[derive(Copy, Clone, Debug, PartialEq, Eq, Structural)]
pub struct MedianGap {
    pub delta_ns: i64,
    pub current_ns: u64,
    pub baseline_ns: u64,
}

/// A probe's medians against those of the baseline probe.
#[derive(Clone, Debug, PartialEq, Eq)]
pub struct SubmitMarkerMechanismBaselineComparison {
    pub baseline: String,
    pub visible_poll_ns: Option<MedianGap>,
    pub none_poll_ns: Option<MedianGap>,
    pub line_position_0_visible_ns: Option<MedianGap>,
    pub line_position_1_visible_ns: Option<MedianGap>,
    pub same_line_first_visible_ns: Option<MedianGap>,
    pub same_line_second_visible_ns: Option<MedianGap>,
}

/// The result of one probe.
#[derive(Clone, Debug, PartialEq, Eq)]
pub struct SubmitMarkerMechanismResult {
    pub benchmark: String,
    pub sub_experiment: String,
    pub variant: String,
    pub operation_class: String,
    pub n: usize,
    pub marker_poll_offset: usize,
    pub poll_submit_batch_n: usize,
    pub completion_layout: String,
    pub completion_stride_bytes: usize,
    pub completion_alignment_bytes: usize,
    pub completion_base_mod_64: usize,
    pub completion_base_mod_4096: usize,
    pub prefetch_distance_lines: Option<usize>,
    pub cache_state: String,
    pub timing_mode: String,
    pub submitted: u64,
    pub completed: LatencyStats,
    pub missing: LatencyStats,
    pub errors: LatencyStats,
    pub none_poll_tsc_ticks: Option<LatencyStats>,
    pub none_poll_ns: Option<LatencyStats>,
    pub visible_poll_tsc_ticks: Option<LatencyStats>,
    pub visible_poll_ns: Option<LatencyStats>,
    pub line_position_0_visible_tsc_ticks: Option<LatencyStats>,
    pub line_position_0_visible_ns: Option<LatencyStats>,
    pub line_position_1_visible_tsc_ticks: Option<LatencyStats>,
    pub line_position_1_visible_ns: Option<LatencyStats>,
    pub same_line_first_visible_tsc_ticks: Option<LatencyStats>,
    pub same_line_first_visible_ns: Option<LatencyStats>,
    pub same_line_second_visible_tsc_ticks: Option<LatencyStats>,
    pub same_line_second_visible_ns: Option<LatencyStats>,
    pub poll_window_tsc_ticks: Option<LatencyStats>,
    pub poll_window_ns: Option<LatencyStats>,
    pub poll_window_reads: Option<LatencyStats>,
    pub poll_window_visible: Option<LatencyStats>,
    pub sample_trace: Vec<SubmitMarkerSampleTrace>,
    pub baseline_comparison: Option<SubmitMarkerMechanismBaselineComparison>,
}

/// The samples of one probe over all iterations.
pub struct ProbeAccumulator {
    pub completed_counts: Vec<u64>,
    pub missing_counts: Vec<u64>,
    pub error_counts: Vec<u64>,
    pub none_poll_tsc: Vec<u64>,
    pub visible_poll_tsc: Vec<u64>,
    pub line_position_0_visible_tsc: Vec<u64>,
    pub line_position_1_visible_tsc: Vec<u64>,
    pub same_line_first_visible_tsc: Vec<u64>,
    pub same_line_second_visible_tsc: Vec<u64>,
    pub poll_window_tsc: Vec<u64>,
    pub poll_window_reads: Vec<u64>,
    pub poll_window_visible: Vec<u64>,
    pub sample_trace: Vec<SubmitMarkerSampleTrace>,
}

/// `values` turned to nanoseconds and summarised when present.
pub open spec fn optional_ns_stats_of(st: Option<LatencyStats>, values: Seq<u64>, tsc_freq: u64) -> bool {
    optional_stats_of(st, ticks_to_ns(values, tsc_freq))
}

impl ProbeAccumulator {
    /// One outcome per iteration.
    pub open spec fn wf(&self) -> bool {
        &&& self.missing_counts@.len() == self.completed_counts@.len()
        &&& self.error_counts@.len() == self.completed_counts@.len()
    }

    pub open spec fn is_empty(&self) -> bool {
        &&& self.completed_counts@.len() == 0
        &&& self.missing_counts@.len() == 0
        &&& self.error_counts@.len() == 0
        &&& self.none_poll_tsc@.len() == 0
        &&& self.visible_poll_tsc@.len() == 0
        &&& self.line_position_0_visible_tsc@.len() == 0
        &&& self.line_position_1_visible_tsc@.len() == 0
        &&& self.same_line_first_visible_tsc@.len() == 0
        &&& self.same_line_second_visible_tsc@.len() == 0
        &&& self.poll_window_tsc@.len() == 0
        &&& self.poll_window_reads@.len() == 0
        &&& self.poll_window_visible@.len() == 0
        &&& self.sample_trace@.len() == 0
    }

    pub fn new() -> (a: Self)
        ensures
            a.wf(),
            a.is_empty(),
    {
        ProbeAccumulator {
            completed_counts: Vec::new(),
            missing_counts: Vec::new(),
            error_counts: Vec::new(),
            none_poll_tsc: Vec::new(),
            visible_poll_tsc: Vec::new(),
            line_position_0_visible_tsc: Vec::new(),
            line_position_1_visible_tsc: Vec::new(),
            same_line_first_visible_tsc: Vec::new(),
            same_line_second_visible_tsc: Vec::new(),
            poll_window_tsc: Vec::new(),
            poll_window_reads: Vec::new(),
            poll_window_visible: Vec::new(),
            sample_trace: Vec::new(),
        }
    }

    /// A read that found the status not yet written.
    pub fn record_none(&mut self, latency_tsc: u64)
        ensures
            *final(self) == (ProbeAccumulator {
                none_poll_tsc: final(self).none_poll_tsc,
                ..*old(self)
            }),
            final(self).none_poll_tsc@ == old(self).none_poll_tsc@.push(latency_tsc),
    {
        self.none_poll_tsc.push(latency_tsc);
    }

    /// A read that found the status written: counted among all visible
    /// reads, by the half of its cacheline the record starts in, and as
    /// the first or second visible read in its line.
    pub fn record_visible(&mut self, latency_tsc: u64, line_position: usize, visible_reads_in_line: u64)
        ensures
            *final(self) == (ProbeAccumulator {
                visible_poll_tsc: final(self).visible_poll_tsc,
                line_position_0_visible_tsc: final(self).line_position_0_visible_tsc,
                line_position_1_visible_tsc: final(self).line_position_1_visible_tsc,
                same_line_first_visible_tsc: final(self).same_line_first_visible_tsc,
                same_line_second_visible_tsc: final(self).same_line_second_visible_tsc,
                ..*old(self)
            }),
            final(self).visible_poll_tsc@ == old(self).visible_poll_tsc@.push(latency_tsc),
            final(self).line_position_0_visible_tsc@ == if line_position == 0 {
                old(self).line_position_0_visible_tsc@.push(latency_tsc)
            } else {
                old(self).line_position_0_visible_tsc@
            },
            final(self).line_position_1_visible_tsc@ == if line_position != 0 {
                old(self).line_position_1_visible_tsc@.push(latency_tsc)
            } else {
                old(self).line_position_1_visible_tsc@
            },
            final(self).same_line_first_visible_tsc@ == if visible_reads_in_line == 1 {
                old(self).same_line_first_visible_tsc@.push(latency_tsc)
            } else {
                old(self).same_line_first_visible_tsc@
            },
            final(self).same_line_second_visible_tsc@ == if visible_reads_in_line == 2 {
                old(self).same_line_second_visible_tsc@.push(latency_tsc)
            } else {
                old(self).same_line_second_visible_tsc@
            },
    {
        self.visible_poll_tsc.push(latency_tsc);
        if line_position == 0 {
            self.line_position_0_visible_tsc.push(latency_tsc);
        } else {
            self.line_position_1_visible_tsc.push(latency_tsc);
        }
        if visible_reads_in_line == 1 {
            self.same_line_first_visible_tsc.push(latency_tsc);
        } else if visible_reads_in_line == 2 {
            self.same_line_second_visible_tsc.push(latency_tsc);
        }
    }

    /// A poll event timed as one window: its length, reads and visible
    /// reads.
    pub fn record_poll_window(&mut self, latency_tsc: u64, reads: u64, visible: u64)
        ensures
            *final(self) == (ProbeAccumulator {
                poll_window_tsc: final(self).poll_window_tsc,
                poll_window_reads: final(self).poll_window_reads,
                poll_window_visible: final(self).poll_window_visible,
                ..*old(self)
            }),
            final(self).poll_window_tsc@ == old(self).poll_window_tsc@.push(latency_tsc),
            final(self).poll_window_reads@ == old(self).poll_window_reads@.push(reads),
            final(self).poll_window_visible@ == old(self).poll_window_visible@.push(visible),
    {
        self.poll_window_tsc.push(latency_tsc);
        self.poll_window_reads.push(reads);
        self.poll_window_visible.push(visible);
    }

    /// The outcome of one iteration of `n` submits.
    pub fn record_outcome(&mut self, n: usize, outcome: CompletionOutcome)
        requires
            old(self).wf(),
        ensures
            final(self).wf(),
            *final(self) == (ProbeAccumulator {
                completed_counts: final(self).completed_counts,
                missing_counts: final(self).missing_counts,
                error_counts: final(self).error_counts,
                ..*old(self)
            }),
            final(self).completed_counts@ == old(self).completed_counts@.push(
                outcome.completed as u64,
            ),
            final(self).missing_counts@ == old(self).missing_counts@.push(
                sat_sub(n as u64, outcome.completed as u64),
            ),
            final(self).error_counts@ == old(self).error_counts@.push(outcome.errors as u64),
    {
        self.completed_counts.push(outcome.completed as u64);
        self.missing_counts.push((n as u64).saturating_sub(outcome.completed as u64));
        self.error_counts.push(outcome.errors as u64);
    }

    pub fn record_sample_trace(&mut self, trace: SubmitMarkerSampleTrace)
        ensures
            *final(self) == (ProbeAccumulator {
                sample_trace: final(self).sample_trace,
                ..*old(self)
            }),
            final(self).sample_trace@ == old(self).sample_trace@.push(trace),
    {
        self.sample_trace.push(trace);
    }

    /// The result of probe `spec` over `n` submits polled from
    /// `poll_offset` on, with records laid out as `layout`.
    pub fn into_result(
        self,
        layout: CompletionLayout,
        n: usize,
        poll_offset: usize,
        operation: DsaOperationClass,
        tsc_freq: u64,
        spec: ProbeSpec,
    ) -> (r: SubmitMarkerMechanismResult)
        requires
            self.wf(),
            self.completed_counts@.len() > 0,
            n * self.completed_counts@.len() <= u64::MAX,
            tsc_freq != 0,
        ensures
            r.benchmark@ == mechanism_benchmark_name(),
            r.sub_experiment@ == spec.sub_experiment@,
            r.variant@ == spec.variant@,
            r.operation_class@ == operation.spec_name(),
            r.n == n,
            r.marker_poll_offset == poll_offset,
            r.poll_submit_batch_n == spec.poll_submit_batch_n,
            r.completion_layout@ == layout.name@,
            r.completion_stride_bytes == layout.stride_bytes,
            r.completion_alignment_bytes == layout.alignment_bytes,
            r.completion_base_mod_64 == layout.base_addr % 64,
            r.completion_base_mod_4096 == layout.base_addr % 4096,
            r.prefetch_distance_lines == Some(spec.prefetch_distance_lines),
            r.cache_state@ == spec.cache_state.spec_name(),
            r.timing_mode@ == spec.timing_mode.spec_name(),
            r.submitted == n * self.completed_counts@.len(),
            is_stats_of(r.completed, self.completed_counts@),
            is_stats_of(r.missing, self.missing_counts@),
            is_stats_of(r.errors, self.error_counts@),
            optional_stats_of(r.none_poll_tsc_ticks, self.none_poll_tsc@),
            optional_ns_stats_of(r.none_poll_ns, self.none_poll_tsc@, tsc_freq),
            optional_stats_of(r.visible_poll_tsc_ticks, self.visible_poll_tsc@),
            optional_ns_stats_of(r.visible_poll_ns, self.visible_poll_tsc@, tsc_freq),
            optional_stats_of(
                r.line_position_0_visible_tsc_ticks,
                self.line_position_0_visible_tsc@,
            ),
            optional_ns_stats_of(
                r.line_position_0_visible_ns,
                self.line_position_0_visible_tsc@,
                tsc_freq,
            ),
            optional_stats_of(
                r.line_position_1_visible_tsc_ticks,
                self.line_position_1_visible_tsc@,
            ),
            optional_ns_stats_of(
                r.line_position_1_visible_ns,
                self.line_position_1_visible_tsc@,
                tsc_freq,
            ),
            optional_stats_of(
                r.same_line_first_visible_tsc_ticks,
                self.same_line_first_visible_tsc@,
            ),
            optional_ns_stats_of(
                r.same_line_first_visible_ns,
                self.same_line_first_visible_tsc@,
                tsc_freq,
            ),
            optional_stats_of(
                r.same_line_second_visible_tsc_ticks,
                self.same_line_second_visible_tsc@,
            ),
            optional_ns_stats_of(
                r.same_line_second_visible_ns,
                self.same_line_second_visible_tsc@,
                tsc_freq,
            ),
            optional_stats_of(r.poll_window_tsc_ticks, self.poll_window_tsc@),
            optional_ns_stats_of(r.poll_window_ns, self.poll_window_tsc@, tsc_freq),
            optional_stats_of(r.poll_window_reads, self.poll_window_reads@),
            optional_stats_of(r.poll_window_visible, self.poll_window_visible@),
            r.sample_trace@ == self.sample_trace@,
            r.baseline_comparison is None,
    {
        let iterations = self.completed_counts.len();
        let none_poll_ns = optional_stats_from_tsc_slice(self.none_poll_tsc.as_slice(), tsc_freq);
        let visible_poll_ns = optional_stats_from_tsc_slice(
            self.visible_poll_tsc.as_slice(),
            tsc_freq,
        );
        let line_position_0_visible_ns = optional_stats_from_tsc_slice(
            self.line_position_0_visible_tsc.as_slice(),
            tsc_freq,
        );
        let line_position_1_visible_ns = optional_stats_from_tsc_slice(
            self.line_position_1_visible_tsc.as_slice(),
            tsc_freq,
        );
        let same_line_first_visible_ns = optional_stats_from_tsc_slice(
            self.same_line_first_visible_tsc.as_slice(),
            tsc_freq,
        );
        let same_line_second_visible_ns = optional_stats_from_tsc_slice(
            self.same_line_second_visible_tsc.as_slice(),
            tsc_freq,
        );
        let poll_window_ns = optional_stats_from_tsc_slice(
            self.poll_window_tsc.as_slice(),
            tsc_freq,
        );
        SubmitMarkerMechanismResult {
            benchmark: String::from_str("submit_marker_mechanism"),
            sub_experiment: String::from_str(spec.sub_experiment),
            variant: String::from_str(spec.variant),
            operation_class: String::from_str(operation.as_str()),
            n,
            marker_poll_offset: poll_offset,
            poll_submit_batch_n: spec.poll_submit_batch_n,
            completion_layout: String::from_str(layout.name),
            completion_stride_bytes: layout.stride_bytes,
            completion_alignment_bytes: layout.alignment_bytes,
            completion_base_mod_64: layout.base_addr % CACHELINE_BYTES,
            completion_base_mod_4096: layout.base_addr % 4096,
            prefetch_distance_lines: Some(spec.prefetch_distance_lines),
            cache_state: String::from_str(spec.cache_state.as_str()),
            timing_mode: String::from_str(spec.timing_mode.as_str()),
            submitted: (n as u64) * (iterations as u64),
            completed: stats_from_values(self.completed_counts),
            missing: stats_from_values(self.missing_counts),
            errors: stats_from_values(self.error_counts),
            none_poll_tsc_ticks: optional_stats(self.none_poll_tsc),
            none_poll_ns,
            visible_poll_tsc_ticks: optional_stats(self.visible_poll_tsc),
            visible_poll_ns,
            line_position_0_visible_tsc_ticks: optional_stats(self.line_position_0_visible_tsc),
            line_position_0_visible_ns,
            line_position_1_visible_tsc_ticks: optional_stats(self.line_position_1_visible_tsc),
            line_position_1_visible_ns,
            same_line_first_visible_tsc_ticks: optional_stats(self.same_line_first_visible_tsc),
            same_line_first_visible_ns,
            same_line_second_visible_tsc_ticks: optional_stats(self.same_line_second_visible_tsc),
            same_line_second_visible_ns,
            poll_window_tsc_ticks: optional_stats(self.poll_window_tsc),
            poll_window_ns,
            poll_window_reads: optional_stats(self.poll_window_reads),
            poll_window_visible: optional_stats(self.poll_window_visible),
            sample_trace: self.sample_trace,
            baseline_comparison: None,
        }
    }
}

/// The median of a summary, when there is one.
pub open spec fn spec_median_of(stats: Option<LatencyStats>) -> Option<u64> {
    match stats {
        Some(s) => Some(s.median),
        None => None,
    }
}

pub fn median_of(stats: &Option<LatencyStats>) -> (m: Option<u64>)
    ensures
        m == spec_median_of(*stats),
{
    match stats {
        Some(s) => Some(s.median),
        None => None,
    }
}

/// The gap of a probe's median to the baseline median: none when either is
/// missing or the baseline median is zero; the difference wraps as `i64`
/// arithmetic does.
pub open spec fn spec_median_gap(stats: Option<LatencyStats>, baseline_median: Option<u64>) -> Option<
    MedianGap,
> {
    match (stats, baseline_median) {
        (Some(s), Some(b)) => if b == 0 {
            None
        } else {
            Some(
                MedianGap {
                    delta_ns: (s.median as i64).wrapping_sub(b as i64),
                    current_ns: s.median,
                    baseline_ns: b,
                },
            )
        },
        _ => None,
    }
}

pub fn median_gap(stats: &Option<LatencyStats>, baseline_median: Option<u64>) -> (g: Option<MedianGap>)
    ensures
        g == spec_median_gap(*stats, baseline_median),
{
    let baseline = match baseline_median {
        Some(b) => b,
        None => return None,
    };
    let current = match stats {
        Some(s) => s.median,
        None => return None,
    };
    if baseline == 0 {
        return None;
    }
    Some(
        MedianGap {
            delta_ns: (current as i64).wrapping_sub(baseline as i64),
            current_ns: current,
            baseline_ns: baseline,
        },
    )
}

/// The baseline probe's label and medians, to compare the other probes to.
pub struct BaselineSummary {
    pub label: String,
    pub visible_poll_ns_median: Option<u64>,
    pub none_poll_ns_median: Option<u64>,
    pub line_position_0_visible_ns_median: Option<u64>,
    pub line_position_1_visible_ns_median: Option<u64>,
    pub same_line_first_visible_ns_median: Option<u64>,
    pub same_line_second_visible_ns_median: Option<u64>,
}

impl BaselineSummary {
    /// The label `sub_experiment/variant` and the nanosecond medians of
    /// `result`.
    pub fn from_result(result: &SubmitMarkerMechanismResult) -> (b: Self)
        ensures
            b.label@ == result.sub_experiment@ + seq!['/'] + result.variant@,
            b.visible_poll_ns_median == spec_median_of(result.visible_poll_ns),
            b.none_poll_ns_median == spec_median_of(result.none_poll_ns),
            b.line_position_0_visible_ns_median == spec_median_of(
                result.line_position_0_visible_ns,
            ),
            b.line_position_1_visible_ns_median == spec_median_of(
                result.line_position_1_visible_ns,
            ),
            b.same_line_first_visible_ns_median == spec_median_of(
                result.same_line_first_visible_ns,
            ),
            b.same_line_second_visible_ns_median == spec_median_of(
                result.same_line_second_visible_ns,
            ),
    {
        let mut label = String::new();
        label.append(result.sub_experiment.as_str());
        label.append("/");
        label.append(result.variant.as_str());
        proof {
            reveal_strlit("/");
        }
        assert(label@ =~= result.sub_experiment@ + seq!['/'] + result.variant@);
        BaselineSummary {
            label,
            visible_poll_ns_median: median_of(&result.visible_poll_ns),
            none_poll_ns_median: median_of(&result.none_poll_ns),
            line_position_0_visible_ns_median: median_of(&result.line_position_0_visible_ns),
            line_position_1_visible_ns_median: median_of(&result.line_position_1_visible_ns),
            same_line_first_visible_ns_median: median_of(&result.same_line_first_visible_ns),
            same_line_second_visible_ns_median: median_of(&result.same_line_second_visible_ns),
        }
    }

    /// Attaches to `result` its gaps to these medians; nothing else of it
    /// changes.
    pub fn apply_to(&self, result: &mut SubmitMarkerMechanismResult)
        ensures
            *final(result) == (SubmitMarkerMechanismResult {
                baseline_comparison: final(result).baseline_comparison,
                ..*old(result)
            }),
            final(result).baseline_comparison matches Some(c) && c.baseline@ == self.label@
                && c.visible_poll_ns == spec_median_gap(
                old(result).visible_poll_ns,
                self.visible_poll_ns_median,
            ) && c.none_poll_ns == spec_median_gap(old(result).none_poll_ns, self.none_poll_ns_median)
                && c.line_position_0_visible_ns == spec_median_gap(
                old(result).line_position_0_visible_ns,
                self.line_position_0_visible_ns_median,
            ) && c.line_position_1_visible_ns == spec_median_gap(
                old(result).line_position_1_visible_ns,
                self.line_position_1_visible_ns_median,
            ) && c.same_line_first_visible_ns == spec_median_gap(
                old(result).same_line_first_visible_ns,
                self.same_line_first_visible_ns_median,
            ) && c.same_line_second_visible_ns == spec_median_gap(
                old(result).same_line_second_visible_ns,
                self.same_line_second_visible_ns_median,
            ),
    {
        let comparison = SubmitMarkerMechanismBaselineComparison {
            baseline: self.label.clone(),
            visible_poll_ns: median_gap(&result.visible_poll_ns, self.visible_poll_ns_median),
            none_poll_ns: median_gap(&result.none_poll_ns, self.none_poll_ns_median),
            line_position_0_visible_ns: median_gap(
                &result.line_position_0_visible_ns,
                self.line_position_0_visible_ns_median,
            ),
            line_position_1_visible_ns: median_gap(
                &result.line_position_1_visible_ns,
                self.line_position_1_visible_ns_median,
            ),
            same_line_first_visible_ns: median_gap(
                &result.same_line_first_visible_ns,
                self.same_line_first_visible_ns_median,
            ),
            same_line_second_visible_ns: median_gap(
                &result.same_line_second_visible_ns,
                self.same_line_second_visible_ns_median,
            ),
        };
        result.baseline_comparison = Some(comparison);
    }
}

/// When both medians fit in `i64`, the gap is their exact difference.
pub proof fn law_median_gap_exact(stats: Option<LatencyStats>, baseline_median: Option<u64>)
    requires
        stats matches Some(s) && s.median <= i64::MAX,
        baseline_median matches Some(b) && b <= i64::MAX && b != 0,
    ensures
        spec_median_gap(stats, baseline_median) matches Some(g) && g.delta_ns == g.current_ns
            - g.baseline_ns,
{
    let c = stats->Some_0.median;
    let b = baseline_median->Some_0;
    let d = (c as i64).wrapping_sub(b as i64);
    assert(d == c - b) by (bit_vector)
        requires
            c <= 0x7fff_ffff_ffff_ffffu64,
            b <= 0x7fff_ffff_ffff_ffffu64,
            d == (c as i64).wrapping_sub(b as i64),
    ;
}

} // verus!
