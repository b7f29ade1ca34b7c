//! Reading the core-cycle counter from user space: the perf metadata page
//! is read under its sequence lock, and the raw counter is sign-extended
//! from its hardware width.

use vstd::prelude::*;

verus! {

/// The low `width` bits of `raw` read as a two's-complement number.
pub open spec fn spec_sign_extend(raw: u64, width: u16) -> i64 {
    let shift: u64 = if width >= 64 {
        0
    } else {
        (64 - width) as u64
    };
    ((raw << shift) as i64) >> shift
}

/// The counter value `raw` read by RDPMC, sign-extended from the counter's
/// `width` bits (a width of 64 or more keeps all bits).
pub fn sign_extend_pmc(raw: u64, width: u16) -> (v: i64)
    requires
        width > 0,
    ensures
        v == spec_sign_extend(raw, width),
{
    let shift: u64 = if width >= 64 {
        0
    } else {
        (64 - width) as u64
    };
    ((raw << shift) as i64) >> shift
}

/// The hardware counter RDPMC reads for a perf `index`: none for index 0
/// (the event is not on a counter), else the counter `index - 1`.
pub fn rdpmc_counter(index: u32) -> (counter: Option<u32>)
    ensures
        counter == if index == 0 {
            None::<u32>
        } else {
            Some((index - 1) as u32)
        },
{
    if index == 0 {
        None
    } else {
        Some(index - 1)
    }
}

/// One read of the perf metadata page under its sequence lock: the lock
/// was `seq_before` before the fields were read and `seq_after` after.
/// The read counts only when no update was in progress (`seq_before` even)
/// and none happened meanwhile; the count is then `offset + pmc`, wrapping.
pub fn seqlock_cycles(seq_before: u32, offset: i64, pmc: i64, seq_after: u32) -> (cycles: Option<
    u64,
>)
    ensures
        cycles == if seq_before % 2 == 0 && seq_before == seq_after {
            Some(offset.wrapping_add(pmc) as u64)
        } else {
            None::<u64>
        },
{
    let stable = seq_before & 1 == 0 && seq_before == seq_after;
    assert(seq_before & 1u32 == seq_before % 2) by (bit_vector);
    if stable {
        Some(offset.wrapping_add(pmc) as u64)
    } else {
        None
    }
}

} // verus!
