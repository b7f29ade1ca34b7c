//! Order statistics of latency samples.

use vstd::prelude::*;

use crate::submit::{cycles_to_ns, spec_cycles_to_ns};

verus! {

/// Integer summary of a non-empty set of samples: the order statistics
/// and mean, and the count, sum and sum of squares from which the spread
/// of the samples follows.
#[derive(Clone, Copy, Debug, PartialEq, Eq, Structural)]
pub struct LatencyStats {
    pub min: u64,
    pub median: u64,
    pub mean: u64,
    pub p99: u64,
    pub p999: u64,
    pub samples: usize,
    pub sum: u128,
    /// The sum of the squared samples, held at `u128::MAX` if it would
    /// exceed it.
    pub sum_squares: u128,
}

/// Sum of the samples.
pub open spec fn spec_sum(s: Seq<u64>) -> int
    decreases s.len(),
{
    if s.len() == 0 {
        0
    } else {
        spec_sum(s.drop_last()) + s.last()
    }
}

/// Sum of the squared samples, held at `u128::MAX` once it gets there.
pub open spec fn spec_sum_squares(s: Seq<u64>) -> u128
    decreases s.len(),
{
    if s.len() == 0 {
        0
    } else {
        let total = spec_sum_squares(s.drop_last()) + (s.last() as int) * (s.last() as int);
        if total > u128::MAX {
            u128::MAX
        } else {
            total as u128
        }
    }
}

/// Samples in non-decreasing order.
pub open spec fn is_sorted(s: Seq<u64>) -> bool {
    forall|i: int, j: int| 0 <= i <= j < s.len() ==> s[i] <= s[j]
}

/// `floor(n * 99 / 100)`, the index of the 99th percentile.
pub open spec fn p99_index(n: int) -> int {
    n * 99 / 100
}

/// `floor(n * 999 / 1000)`, capped at the last index.
pub open spec fn p999_index(n: int) -> int {
    let i = n * 999 / 1000;
    if i < n - 1 {
        i
    } else {
        n - 1
    }
}

/// The summary of samples already in order: first, middle (`n / 2`),
/// floor of the mean, and the 99th and 99.9th percentile positions.
pub open spec fn stats_of_sorted(s: Seq<u64>) -> LatencyStats {
    let n = s.len() as int;
    LatencyStats {
        min: s[0],
        median: s[n / 2],
        mean: (spec_sum(s) / n) as u64,
        p99: s[p99_index(n)],
        p999: s[p999_index(n)],
        samples: n as usize,
        sum: spec_sum(s) as u128,
        sum_squares: spec_sum_squares(s),
    }
}

/// The summary of any samples: that of their sorted arrangement.
pub open spec fn is_stats_of(st: LatencyStats, values: Seq<u64>) -> bool {
    exists|sorted: Seq<u64>|
        #![trigger stats_of_sorted(sorted)]
        {
            &&& sorted.to_multiset() == values.to_multiset()
            &&& is_sorted(sorted)
            &&& st == stats_of_sorted(sorted)
        }
}

proof fn lemma_sum_bound(s: Seq<u64>)
    ensures
        0 <= spec_sum(s) <= s.len() * u64::MAX,
    decreases s.len(),
{
    if s.len() > 0 {
        lemma_sum_bound(s.drop_last());
    }
}

/// The sum of sorted samples lies between `n` times the first and `n`
/// times the last.
proof fn lemma_sum_between(s: Seq<u64>)
    requires
        s.len() > 0,
        is_sorted(s),
    ensures
        s.len() * s[0] <= spec_sum(s) <= s.len() * s.last(),
    decreases s.len(),
{
    if s.len() > 1 {
        let t = s.drop_last();
        assert(is_sorted(t));
        lemma_sum_between(t);
        assert(t[0] == s[0]);
        assert(t.last() <= s.last());
        assert(t.len() * t.last() <= t.len() * s.last()) by (nonlinear_arith)
            requires
                t.last() <= s.last(),
                t.len() >= 0,
        ;
        assert(s[0] <= s.last());
        assert(spec_sum(s) == spec_sum(t) + s.last());
        assert(s.len() * s[0] == t.len() * s[0] + s[0]) by (nonlinear_arith)
            requires
                s.len() == t.len() + 1,
        ;
        assert(s.len() * s.last() == t.len() * s.last() + s.last()) by (nonlinear_arith)
            requires
                s.len() == t.len() + 1,
        ;
    } else {
        assert(spec_sum(s) == spec_sum(s.drop_last()) + s.last());
        assert(s.drop_last().len() == 0);
        assert(s[0] == s.last());
    }
}

/// Taking one sample out lowers the sum by that sample.
proof fn lemma_sum_remove(s: Seq<u64>, i: int)
    requires
        0 <= i < s.len(),
    ensures
        spec_sum(s) == spec_sum(s.remove(i)) + s[i],
    decreases s.len(),
{
    if i == s.len() - 1 {
        assert(s.remove(i) =~= s.drop_last());
    } else {
        let r = s.remove(i);
        assert(r.drop_last() =~= s.drop_last().remove(i));
        assert(r.last() == s.last());
        lemma_sum_remove(s.drop_last(), i);
        assert(s.drop_last()[i] == s[i]);
    }
}

/// Samples with the same values in any order have the same sum.
proof fn lemma_sum_same_multiset(a: Seq<u64>, b: Seq<u64>)
    requires
        a.to_multiset() == b.to_multiset(),
    ensures
        spec_sum(a) == spec_sum(b),
    decreases a.len(),
{
    broadcast use vstd::multiset::group_multiset_axioms;

    a.to_multiset_ensures();
    b.to_multiset_ensures();
    if a.len() == 0 {
        assert(b.len() == 0);
    } else {
        let x = a.last();
        let init = a.drop_last();
        init.to_multiset_ensures();
        assert(init.push(x) =~= a);
        assert(a.to_multiset() =~= init.to_multiset().insert(x));
        assert(b.to_multiset().count(x) > 0);
        assert(b.contains(x));
        let i = choose|i: int| 0 <= i < b.len() && b[i] == x;
        let rest = b.remove(i);
        assert(rest.to_multiset() =~= b.to_multiset().remove(x));
        assert(init.to_multiset().insert(x).remove(x) =~= init.to_multiset());
        lemma_sum_same_multiset(init, rest);
        lemma_sum_remove(b, i);
    }
}

/// The mean of a summary is the sum of the samples divided by their
/// count, rounded down: `mean * n <= sum < (mean + 1) * n`. The summary
/// also records that count and that sum. (Samples come in a vector, so
/// there are at most `usize::MAX` of them.)
pub proof fn law_stats_mean(st: LatencyStats, values: Seq<u64>)
    requires
        values.len() > 0,
        values.len() <= usize::MAX,
        is_stats_of(st, values),
    ensures
        st.samples == values.len(),
        st.sum == spec_sum(values),
        st.mean * values.len() <= spec_sum(values),
        spec_sum(values) < (st.mean + 1) * values.len(),
{
    let sorted = choose|sorted: Seq<u64>|
        {
            &&& sorted.to_multiset() == values.to_multiset()
            &&& is_sorted(sorted)
            &&& st == stats_of_sorted(sorted)
        };
    sorted.to_multiset_ensures();
    values.to_multiset_ensures();
    lemma_sum_same_multiset(sorted, values);
    lemma_sum_bound(values);
    let n = values.len() as int;
    let total = spec_sum(values);
    let q = total / n;
    assert(q * n <= total < (q + 1) * n && 0 <= q <= u64::MAX) by (nonlinear_arith)
        requires
            n > 0,
            q == total / n,
            0 <= total <= n * u64::MAX,
    ;
    assert(total <= u128::MAX) by (nonlinear_arith)
        requires
            0 <= total <= n * u64::MAX,
            n <= usize::MAX,
    ;
    assert(st.mean == q);
}

/// Every summary is ordered: the minimum is at most the median, which is
/// at most the 99th percentile, which is at most the 99.9th; the mean lies
/// between the minimum and the largest sample.
pub proof fn law_stats_ordered(st: LatencyStats, values: Seq<u64>)
    requires
        values.len() > 0,
        is_stats_of(st, values),
    ensures
        st.min <= st.median <= st.p99 <= st.p999,
        st.min <= st.mean,
        exists|i: int| 0 <= i < values.len() && st.mean <= #[trigger] values[i],
{
    let sorted = choose|sorted: Seq<u64>|
        {
            &&& sorted.to_multiset() == values.to_multiset()
            &&& is_sorted(sorted)
            &&& st == stats_of_sorted(sorted)
        };
    let n = sorted.len() as int;
    assert(sorted.len() == values.len()) by {
        sorted.to_multiset_ensures();
        values.to_multiset_ensures();
    }
    assert(n / 2 <= p99_index(n)) by (nonlinear_arith)
        requires
            n > 0,
    ;
    assert(p99_index(n) < n) by (nonlinear_arith)
        requires
            n > 0,
    ;
    assert(p99_index(n) <= n * 999 / 1000) by (nonlinear_arith)
        requires
            n > 0,
    ;
    lemma_sum_between(sorted);
    assert(spec_sum(sorted) / n >= sorted[0]) by (nonlinear_arith)
        requires
            n * sorted[0] <= spec_sum(sorted),
            n > 0,
    ;
    assert(spec_sum(sorted) / n <= sorted.last()) by (nonlinear_arith)
        requires
            spec_sum(sorted) <= n * sorted.last(),
            n > 0,
    ;
    assert(sorted.to_multiset().count(sorted.last()) > 0) by {
        sorted.to_multiset_ensures();
        assert(sorted.contains(sorted.last())) by {
            assert(sorted[n - 1] == sorted.last());
        }
    }
    values.to_multiset_ensures();
    assert(values.contains(sorted.last()));
    let k = choose|k: int| 0 <= k < values.len() && values[k] == sorted.last();
    assert(st.mean <= values[k]);
}

/// `floor(n * num / den)` without forming `n * num`.
fn scaled_index(n: usize, num: usize, den: usize) -> (i: usize)
    requires
        0 < num < den <= 1000,
    ensures
        i as int == n as int * num as int / den as int,
        n > 0 ==> i < n,
{
    let q = n / den;
    let r = n % den;
    proof {
        let ni = n as int;
        let qi = q as int;
        let ri = r as int;
        let nu = num as int;
        let de = den as int;
        assert(ni == qi * de + ri) by (nonlinear_arith)
            requires
                qi == ni / de,
                ri == ni % de,
                de > 0,
        ;
        assert(ni * nu / de == qi * nu + ri * nu / de) by (nonlinear_arith)
            requires
                ni == qi * de + ri,
                0 <= ri < de,
                de > 0,
                qi >= 0,
                nu >= 0,
        ;
        assert(ni > 0 ==> (ni * nu / de) < ni) by (nonlinear_arith)
            requires
                0 < nu < de,
        ;
        assert(qi * nu <= ni) by (nonlinear_arith)
            requires
                qi == ni / de,
                0 < nu < de,
                ni >= 0,
        ;
        assert(ri * nu < 1000 * 1000) by (nonlinear_arith)
            requires
                0 <= ri < de,
                de <= 1000,
                0 < nu < 1000,
        ;
        assert(ri * nu / de <= ri * nu) by (nonlinear_arith)
            requires
                ri * nu >= 0,
                de > 0,
        ;
    }
    let i = q * num + r * num / den;
    i
}

/// The summary of samples already in order. The sum is accumulated in
/// 128 bits, so it never overflows.
pub fn compute_stats(sorted: &[u64]) -> (st: LatencyStats)
    requires
        sorted@.len() > 0,
    ensures
        st == stats_of_sorted(sorted@),
{
    let n = sorted.len();
    let mut sum: u128 = 0;
    let mut sum_squares: u128 = 0;
    let mut i: usize = 0;
    while i < n
        invariant
            n == sorted@.len(),
            i <= n,
            sum == spec_sum(sorted@.subrange(0, i as int)),
            sum_squares == spec_sum_squares(sorted@.subrange(0, i as int)),
        decreases n - i,
    {
        proof {
            let pre = sorted@.subrange(0, i + 1);
            assert(pre.drop_last() =~= sorted@.subrange(0, i as int));
            lemma_sum_bound(sorted@.subrange(0, i as int));
            assert(i * u64::MAX <= usize::MAX * u64::MAX) by (nonlinear_arith)
                requires
                    i <= usize::MAX,
            ;
        }
        sum = sum + sorted[i] as u128;
        let v = sorted[i] as u128;
        assert(v * v <= 0xffff_ffff_ffff_ffffu128 * 0xffff_ffff_ffff_ffffu128) by (nonlinear_arith)
            requires
                v <= 0xffff_ffff_ffff_ffffu128,
        ;
        sum_squares = sum_squares.saturating_add(v * v);
        i = i + 1;
    }
    assert(sorted@.subrange(0, n as int) =~= sorted@);
    proof {
        lemma_sum_bound(sorted@);
        assert(spec_sum(sorted@) / n as int <= u64::MAX) by (nonlinear_arith)
            requires
                0 <= spec_sum(sorted@) <= n * u64::MAX,
                n > 0,
        ;
    }
    let mean = (sum / n as u128) as u64;
    let p99 = scaled_index(n, 99, 100);
    let mut p999 = scaled_index(n, 999, 1000);
    if p999 > n - 1 {
        p999 = n - 1;
    }
    proof {
        lemma_sum_bound(sorted@);
        assert(n * u64::MAX <= u128::MAX) by (nonlinear_arith)
            requires
                n <= usize::MAX,
        ;
    }
    LatencyStats {
        min: sorted[0],
        median: sorted[n / 2],
        mean,
        p99: sorted[p99],
        p999: sorted[p999],
        samples: n,
        sum,
        sum_squares,
    }
}

/// Sorts the samples in place with `slice::sort_unstable`: afterwards they
/// are in non-decreasing order and hold the same values as before.
#[verifier::external_body]
fn sort_unstable(values: &mut Vec<u64>)
    ensures
        final(values)@.to_multiset() == old(values)@.to_multiset(),
        is_sorted(final(values)@),
{
    values.sort_unstable();
}

/// The summary of a non-empty set of samples, in any order.
pub fn stats_from_values(values: Vec<u64>) -> (st: LatencyStats)
    requires
        values@.len() > 0,
    ensures
        is_stats_of(st, values@),
{
    let mut values = values;
    let ghost unsorted = values@;
    sort_unstable(&mut values);
    proof {
        broadcast use vstd::seq_lib::group_to_multiset_ensures;

        assert(values@.len() == values@.to_multiset().len());
        assert(unsorted.len() == unsorted.to_multiset().len());
    }
    let st = compute_stats(values.as_slice());
    assert(stats_of_sorted(values@) == st);
    st
}

/// The summary of the samples, or nothing for no samples.
pub fn optional_stats(values: Vec<u64>) -> (st: Option<LatencyStats>)
    ensures
        values@.len() == 0 <==> st is None,
        st matches Some(s) ==> is_stats_of(s, values@),
{
    if values.len() == 0 {
        None
    } else {
        Some(stats_from_values(values))
    }
}

/// Every sample converted from TSC ticks to nanoseconds.
pub open spec fn ticks_to_ns(values: Seq<u64>, tsc_freq: u64) -> Seq<u64> {
    values.map_values(|t: u64| spec_cycles_to_ns(t, tsc_freq))
}

/// Converts every sample from TSC ticks to nanoseconds.
pub fn ns_values(values: &[u64], tsc_freq: u64) -> (ns: Vec<u64>)
    requires
        tsc_freq != 0,
    ensures
        ns@ == ticks_to_ns(values@, tsc_freq),
{
    let mut ns: Vec<u64> = Vec::new();
    let mut i: usize = 0;
    while i < values.len()
        invariant
            tsc_freq != 0,
            i <= values@.len(),
            ns@ == ticks_to_ns(values@.subrange(0, i as int), tsc_freq),
        decreases values@.len() - i,
    {
        ns.push(cycles_to_ns(values[i], tsc_freq));
        i = i + 1;
        assert(ns@ =~= ticks_to_ns(values@.subrange(0, i as int), tsc_freq));
    }
    assert(values@.subrange(0, values@.len() as int) =~= values@);
    ns
}

/// The summaries of one latency benchmark: the samples are sorted once;
/// the cycle summary is that of the sorted samples, and the nanosecond
/// summary is read off the same positions of the sorted samples converted
/// to nanoseconds (the conversion keeps their order, see
/// `law_ns_conversion_keeps_order`).
pub fn cycle_and_ns_stats(latencies: Vec<u64>, tsc_freq: u64) -> (r: (LatencyStats, LatencyStats))
    requires
        latencies@.len() > 0,
        tsc_freq != 0,
    ensures
        exists|sorted: Seq<u64>|
            #![trigger stats_of_sorted(sorted)]
            {
                &&& sorted.to_multiset() == latencies@.to_multiset()
                &&& is_sorted(sorted)
                &&& r.0 == stats_of_sorted(sorted)
                &&& r.1 == stats_of_sorted(ticks_to_ns(sorted, tsc_freq))
            },
{
    let mut latencies = latencies;
    sort_unstable(&mut latencies);
    proof {
        broadcast use vstd::seq_lib::group_to_multiset_ensures;

        assert(latencies@.len() == latencies@.to_multiset().len());
    }
    let cycles = compute_stats(latencies.as_slice());
    let ns_sorted = ns_values(latencies.as_slice(), tsc_freq);
    let ns = compute_stats(ns_sorted.as_slice());
    assert(stats_of_sorted(latencies@) == cycles);
    (cycles, ns)
}

/// With a TSC of at least 1 GHz no conversion overflows, so converting
/// sorted tick samples to nanoseconds keeps them sorted.
pub proof fn law_ns_conversion_keeps_order(s: Seq<u64>, tsc_freq: u64)
    requires
        is_sorted(s),
        tsc_freq >= 1_000_000_000,
    ensures
        is_sorted(ticks_to_ns(s, tsc_freq)),
{
    assert forall|i: int, j: int| 0 <= i <= j < s.len() implies ticks_to_ns(s, tsc_freq)[i]
        <= ticks_to_ns(s, tsc_freq)[j] by {
        let a = s[i] as int;
        let b = s[j] as int;
        let f = tsc_freq as int;
        assert(a * 1_000_000_000 / f <= b * 1_000_000_000 / f) by (nonlinear_arith)
            requires
                0 <= a <= b,
                f > 0,
        ;
        assert(b * 1_000_000_000 / f <= b) by (nonlinear_arith)
            requires
                0 <= b,
                f >= 1_000_000_000,
        ;
        assert(a * 1_000_000_000 / f >= 0) by (nonlinear_arith)
            requires
                0 <= a,
                f > 0,
        ;
    }
}

/// The summary of non-empty tick samples, in nanoseconds.
pub fn stats_from_tsc_slice(values: &[u64], tsc_freq: u64) -> (st: LatencyStats)
    requires
        values@.len() > 0,
        tsc_freq != 0,
    ensures
        is_stats_of(st, ticks_to_ns(values@, tsc_freq)),
{
    stats_from_values(ns_values(values, tsc_freq))
}

/// The summary of tick samples in nanoseconds, or nothing for no samples.
pub fn optional_stats_from_tsc_slice(values: &[u64], tsc_freq: u64) -> (st: Option<LatencyStats>)
    requires
        tsc_freq != 0,
    ensures
        values@.len() == 0 <==> st is None,
        st matches Some(s) ==> is_stats_of(s, ticks_to_ns(values@, tsc_freq)),
{
    if values.len() == 0 {
        None
    } else {
        Some(stats_from_tsc_slice(values, tsc_freq))
    }
}

/// `operations` per second over `cycles` ticks at `tsc_freq` Hz, zero when
/// no time passed; the quotient keeps its low 64 bits.
pub open spec fn spec_ops_per_second(operations: u64, cycles: u64, tsc_freq: u64) -> u64 {
    if cycles == 0 {
        0
    } else {
        ((operations as int * tsc_freq as int / cycles as int) % 0x1_0000_0000_0000_0000) as u64
    }
}

/// Operations per second over `cycles` TSC ticks, 0 for no elapsed time.
pub fn ops_per_second(operations: u64, cycles: u64, tsc_freq: u64) -> (ops: u64)
    ensures
        ops == spec_ops_per_second(operations, cycles, tsc_freq),
{
    if cycles == 0 {
        0
    } else {
        assert(operations as u128 * tsc_freq as u128 <= u64::MAX as u128 * u64::MAX as u128)
            by (nonlinear_arith)
            requires
                operations <= u64::MAX,
                tsc_freq <= u64::MAX,
        ;
        let q: u128 = (operations as u128 * tsc_freq as u128) / cycles as u128;
        assert(q as u64 == q % 0x1_0000_0000_0000_0000) by (bit_vector);
        #[verifier::truncate] (q as u64)
    }
}

} // verus!
