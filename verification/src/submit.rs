//! Submission-side helpers shared by every benchmark: work-queue portal
//! bookkeeping and time-base conversions.

use vstd::prelude::*;

use crate::text::{
    chars_equal, chars_of, i32_literal_value, is_i32_literal, is_usize_literal, parse_i32,
    parse_usize, trim, trim_bounds, usize_literal_value,
};

verus! {

/// Nanoseconds per second.
pub const NANOS_PER_SEC: u64 = 1_000_000_000;

/// The exact value `cycles_to_ns` computes before narrowing to 64 bits.
pub open spec fn spec_cycles_to_ns_wide(cycles: u64, tsc_freq_hz: u64) -> int
    recommends
        tsc_freq_hz != 0,
{
    (cycles as int * NANOS_PER_SEC as int) / tsc_freq_hz as int
}

/// `cycles_to_ns`: the exact quotient narrowed to its low 64 bits.
pub open spec fn spec_cycles_to_ns(cycles: u64, tsc_freq_hz: u64) -> u64 {
    (spec_cycles_to_ns_wide(cycles, tsc_freq_hz) % 0x1_0000_0000_0000_0000) as u64
}

/// Converts TSC cycles to nanoseconds at the given TSC frequency.
///
/// The product is formed in 128-bit arithmetic, so it never overflows; the
/// quotient is then narrowed to 64 bits, keeping its low 64 bits.
pub fn cycles_to_ns(cycles: u64, tsc_freq_hz: u64) -> (ns: u64)
    requires
        tsc_freq_hz != 0,
    ensures
        ns == spec_cycles_to_ns(cycles, tsc_freq_hz),
        spec_cycles_to_ns_wide(cycles, tsc_freq_hz) <= u64::MAX ==> ns as int
            == spec_cycles_to_ns_wide(cycles, tsc_freq_hz),
{
    let wide: u128 = cycles as u128 * 1_000_000_000u128;
    let q: u128 = wide / tsc_freq_hz as u128;
    assert(q as u64 == q % 0x1_0000_0000_0000_0000) by (bit_vector);
    #[verifier::truncate] (q as u64)
}

/// A mapped work-queue portal: the address of its 4 KiB submission page,
/// and whether the queue is dedicated (one submitter, MOVDIR64B) or shared
/// (ENQCMD, retried until the device accepts).
pub struct WqPortal {
    portal: usize,
    dedicated: bool,
}

impl WqPortal {
    pub closed spec fn spec_portal(&self) -> usize {
        self.portal
    }

    pub closed spec fn spec_dedicated(&self) -> bool {
        self.dedicated
    }

    /// The portal mapped at `portal`.
    pub fn new(portal: usize, dedicated: bool) -> (p: Self)
        ensures
            p.spec_portal() == portal,
            p.spec_dedicated() == dedicated,
    {
        WqPortal { portal, dedicated }
    }

    /// The portal mapped at `portal` of a queue whose sysfs `mode` file
    /// read `mode` (nothing when it could not be read): shared only when
    /// that text is `shared`.
    pub fn from_mode(portal: usize, mode: Option<&str>) -> (p: Self)
        ensures
            p.spec_portal() == portal,
            p.spec_dedicated() == spec_wq_is_dedicated(mode_text(mode)),
    {
        WqPortal { portal, dedicated: wq_is_dedicated(mode) }
    }

    pub fn is_dedicated(&self) -> (b: bool)
        ensures
            b == self.spec_dedicated(),
    {
        self.dedicated
    }

    /// The address descriptors are written to.
    pub fn portal_addr(&self) -> (a: usize)
        ensures
            a == self.spec_portal(),
    {
        self.portal
    }
}

/// The queue mode named by the text of a work queue's sysfs `mode` file:
/// dedicated, shared, or unknown.
pub open spec fn spec_wq_mode(mode: Seq<char>) -> Option<bool> {
    let m = trim(mode);
    if m == "dedicated"@ {
        Some(true)
    } else if m == "shared"@ {
        Some(false)
    } else {
        None
    }
}

/// Reads the `mode` file's text: `Some(true)` for a dedicated queue,
/// `Some(false)` for a shared one, `None` for any other text (which the
/// caller treats as dedicated, with a warning).
pub fn parse_wq_mode(mode: &str) -> (r: Option<bool>)
    ensures
        r == spec_wq_mode(mode@),
{
    let chars = chars_of(mode);
    let (lo, hi) = trim_bounds(&chars, 0, chars.len());
    assert(chars@.subrange(0, chars@.len() as int) =~= mode@);
    if chars_equal(&chars, lo, hi, "dedicated") {
        Some(true)
    } else if chars_equal(&chars, lo, hi, "shared") {
        Some(false)
    } else {
        None
    }
}

/// Whether a work queue is dedicated, given the text of its sysfs `mode`
/// file, or nothing when that file could not be found or read: only a mode
/// reading `shared` (around whitespace) makes the queue shared; `dedicated`,
/// any other text and a missing file all count as dedicated.
pub open spec fn spec_wq_is_dedicated(mode: Option<Seq<char>>) -> bool {
    match mode {
        Some(m) => trim(m) != "shared"@,
        None => true,
    }
}

/// The mode text as a sequence of characters, when there is one.
pub open spec fn mode_text(mode: Option<&str>) -> Option<Seq<char>> {
    match mode {
        Some(m) => Some(m@),
        None => None,
    }
}

/// Decides the queue mode from the sysfs `mode` text, if it was read.
pub fn wq_is_dedicated(mode: Option<&str>) -> (dedicated: bool)
    ensures
        dedicated == spec_wq_is_dedicated(mode_text(mode)),
        dedicated == match mode {
            Some(m) => spec_wq_mode(m@) != Some(false),
            None => true,
        },
{
    match mode {
        Some(m) => {
            proof {
                reveal_strlit("shared");
                reveal_strlit("dedicated");
                assert("dedicated"@ != "shared"@) by {
                    assert("dedicated"@.len() != "shared"@.len());
                }
            }
            match parse_wq_mode(m) {
                Some(dedicated) => dedicated,
                None => true,
            }
        },
        None => true,
    }
}

/// Spins after which a status poll gives up.
pub const POLL_MAX_SPINS: u64 = 2_000_000_000;

/// The status a poll reports when it gives up.
pub const POLL_TIMEOUT_STATUS: u8 = 0xFF;

/// The status bits of a completion record's status byte.
pub const STATUS_MASK: u8 = 0x7f;

/// What to do after one read of a completion status.
#[derive(Copy, Clone, Debug, PartialEq, Eq, Structural)]
pub enum PollStep {
    /// The status was written; these are its status bits.
    Done(u8),
    /// Too many spins: give up and report `POLL_TIMEOUT_STATUS`.
    TimedOut,
    /// Spin again; this many spins have passed.
    Spin(u64),
}

/// The decision after reading `status` with `spins` spins behind: a status
/// other than `none_value` ends the poll with its status bits; otherwise
/// one more spin passes, and the poll gives up once `max_spins` have
/// (`POLL_MAX_SPINS` for a completion poll).
pub fn poll_status_step(status: u8, none_value: u8, spins: u64, max_spins: u64) -> (step: PollStep)
    requires
        spins < max_spins,
    ensures
        status != none_value ==> step == PollStep::Done(status & STATUS_MASK),
        status == none_value && spins + 1 >= max_spins ==> step == PollStep::TimedOut,
        status == none_value && spins + 1 < max_spins ==> step == PollStep::Spin(
            (spins + 1) as u64,
        ),
{
    if status != none_value {
        return PollStep::Done(status & STATUS_MASK);
    }
    let spins = spins + 1;
    if spins >= max_spins {
        PollStep::TimedOut
    } else {
        PollStep::Spin(spins)
    }
}

/// The TSC frequency measured over an interval: `end_tsc - start_tsc`
/// ticks in `elapsed_ns` nanoseconds.
pub fn tsc_freq_from_interval(start_tsc: u64, end_tsc: u64, elapsed_ns: u64) -> (hz: u64)
    requires
        start_tsc <= end_tsc,
        elapsed_ns != 0,
        (end_tsc - start_tsc) * 1_000_000_000 <= u64::MAX,
    ensures
        hz == (end_tsc - start_tsc) * 1_000_000_000 / (elapsed_ns as int),
{
    (end_tsc - start_tsc) * 1_000_000_000 / elapsed_ns
}

/// The NUMA node named by an entry of a CPU's sysfs directory: entries
/// named `node<k>` name node `k` when `k` reads as a number, and end the
/// search either way; other entries are skipped.
pub open spec fn spec_numa_node_entry(name: Seq<char>) -> Option<Option<usize>> {
    if name.len() >= 4 && name.subrange(0, 4) == "node"@ {
        let rest = name.subrange(4, name.len() as int);
        Some(
            if is_usize_literal(rest) {
                Some(usize_literal_value(rest) as usize)
            } else {
                None
            },
        )
    } else {
        None
    }
}

pub fn numa_node_entry(name: &str) -> (r: Option<Option<usize>>)
    ensures
        r == spec_numa_node_entry(name@),
{
    let chars = chars_of(name);
    let n = chars.len();
    if n < 4 || !chars_equal(&chars, 0, 4, "node") {
        return None;
    }
    let rest = name.substring_char(4, n);
    match parse_usize(rest) {
        Ok(node) => Some(Some(node)),
        Err(_) => Some(None),
    }
}

/// The NUMA node in the text of a device's sysfs `numa_node` file: the
/// trimmed text read as an `i32`, when it is one.
pub open spec fn spec_device_numa_node(text: Seq<char>) -> Option<i32> {
    let t = trim(text);
    if is_i32_literal(t) {
        Some(i32_literal_value(t) as i32)
    } else {
        None
    }
}

pub fn parse_device_numa_node(text: &str) -> (r: Option<i32>)
    ensures
        r == spec_device_numa_node(text@),
{
    let chars = chars_of(text);
    let (lo, hi) = trim_bounds(&chars, 0, chars.len());
    assert(chars@.subrange(0, chars@.len() as int) =~= text@);
    let trimmed = text.substring_char(lo, hi);
    match parse_i32(trimmed) {
        Ok(node) => Some(node),
        Err(_) => None,
    }
}

} // verus!
