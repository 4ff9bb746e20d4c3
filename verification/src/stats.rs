//! Order statistics over latency and counter samples.
//!
//! A sample is given by its order key, a `u64` that orders exactly as the
//! measured values do: a counter sample is the count itself, and a latency in
//! milliseconds (a non-negative `f64`) is its IEEE-754 bit pattern, which for
//! non-negative finite values is monotone in the value. Sorting, ranks and the
//! choice of order statistics therefore happen here on integers, and a caller
//! turns a key back into its value after the selection.
use vstd::prelude::*;
use vstd::relations::*;

verus! {

broadcast use vstd::seq_lib::group_to_multiset_ensures;

/// The order in which samples are ranked: ascending keys.
pub open spec fn key_order() -> spec_fn(u64, u64) -> bool {
    |a: u64, b: u64| a <= b
}

/// The samples in ascending order.
pub open spec fn sorted_keys(s: Seq<u64>) -> Seq<u64> {
    s.sort_by(key_order())
}

/// Zero-based index of the `per_mille`/1000 percentile among `n` ascending
/// samples: `ceil(n * p) - 1`, saturating at zero and capped at the last sample.
pub open spec fn rank_index(n: nat, per_mille: nat) -> int {
    let ceil = (n * per_mille + 999) / 1000;
    let idx: int = if ceil >= 1 { ceil - 1 } else { 0 };
    if idx < n { idx } else { n - 1 }
}

/// The `per_mille`/1000 percentile of the samples; zero when there are none.
pub open spec fn percentile_of(s: Seq<u64>, per_mille: nat) -> u64 {
    if s.len() == 0 {
        0
    } else {
        sorted_keys(s)[rank_index(s.len(), per_mille)]
    }
}

/// Summary of one metric: smallest, median, 95th percentile and largest key,
/// and the number of samples.
#[derive(Debug, Clone, Copy, PartialEq, Eq, Structural)]
pub struct Stats {
    pub min: u64,
    pub p50: u64,
    pub p95: u64,
    pub max: u64,
    pub count: usize,
}

/// The summary with every field zero, used when there are no samples.
pub open spec fn empty_stats() -> Stats {
    Stats { min: 0, p50: 0, p95: 0, max: 0, count: 0 }
}

/// The summary of a sequence of samples.
pub open spec fn stats_of(s: Seq<u64>) -> Stats {
    if s.len() == 0 {
        empty_stats()
    } else {
        Stats {
            min: sorted_keys(s)[0],
            p50: percentile_of(s, 500),
            p95: percentile_of(s, 950),
            max: sorted_keys(s)[s.len() - 1],
            count: s.len() as usize,
        }
    }
}

/// The middle of a sample set: none, one middle sample (odd count) or the
/// two middle samples (even count), whose mean is the median.
#[derive(Debug, Clone, Copy, PartialEq, Eq, Structural)]
pub enum Middle {
    Empty,
    Single(u64),
    Pair(u64, u64),
}

/// The middle of a sequence of samples in ascending order.
pub open spec fn middle_of(s: Seq<u64>) -> Middle {
    let n = s.len();
    let mid = n / 2;
    if n == 0 {
        Middle::Empty
    } else if n % 2 == 0 {
        Middle::Pair(sorted_keys(s)[mid - 1], sorted_keys(s)[mid as int])
    } else {
        Middle::Single(sorted_keys(s)[mid as int])
    }
}

pub proof fn lemma_key_order_total()
    ensures
        total_ordering(key_order()),
{
}

/// A sorted rearrangement of `s` is `sorted_keys(s)`.
pub proof fn lemma_sorted_rearrangement(s: Seq<u64>, t: Seq<u64>)
    requires
        sorted_by(t, key_order()),
        t.to_multiset() == s.to_multiset(),
    ensures
        t == sorted_keys(s),
{
    lemma_key_order_total();
    s.lemma_sort_by_ensures(key_order());
    vstd::seq_lib::lemma_sorted_unique(t, sorted_keys(s), key_order());
}

/// The samples in ascending order are a sorted rearrangement of them.
pub proof fn lemma_sorted_keys_facts(s: Seq<u64>)
    ensures
        sorted_by(sorted_keys(s), key_order()),
        sorted_keys(s).to_multiset() == s.to_multiset(),
        sorted_keys(s).len() == s.len(),
{
    lemma_key_order_total();
    s.lemma_sort_by_ensures(key_order());
    vstd::seq_lib::to_multiset_len(s);
    vstd::seq_lib::to_multiset_len(sorted_keys(s));
}

/// Sorts the keys in place.
///
/// Calls `slice::sort`, whose documentation promises that the slice ends up in
/// ascending order holding the same elements; the contract states exactly that.
#[verifier::external_body]
pub(crate) fn sort_keys(v: &mut Vec<u64>)
    ensures
        final(v)@.to_multiset() == old(v)@.to_multiset(),
        sorted_by(final(v)@, key_order()),
{
    v.sort();
}

/// Index of the `per_mille`/1000 percentile among `n >= 1` ascending samples.
fn rank(n: usize, per_mille: u32) -> (idx: usize)
    requires
        n >= 1,
    ensures
        idx as int == rank_index(n as nat, per_mille as nat),
        idx < n,
{
    let wide_n = n as u128;
    let wide_p = per_mille as u128;
    assert(wide_n * wide_p <= 0xffff_ffff_ffff_ffffu128 * 0xffff_ffffu128) by (nonlinear_arith)
        requires
            wide_n <= 0xffff_ffff_ffff_ffffu128,
            wide_p <= 0xffff_ffffu128,
    ;
    let ceil = (wide_n * wide_p + 999) / 1000;
    let idx0: u128 = if ceil >= 1 { ceil - 1 } else { 0 };
    if idx0 < wide_n {
        idx0 as usize
    } else {
        n - 1
    }
}

/// The `per_mille`/1000 percentile of samples that are already ascending.
pub(crate) fn percentile_sorted(sorted: &Vec<u64>, per_mille: u32) -> (v: u64)
    ensures
        sorted@.len() > 0 ==> v == sorted@[rank_index(sorted@.len(), per_mille as nat)],
        sorted@.len() == 0 ==> v == 0,
{
    if sorted.len() == 0 {
        return 0;
    }
    let idx = rank(sorted.len(), per_mille);
    sorted[idx]
}

impl Stats {
    pub fn empty() -> (s: Self)
        ensures
            s == empty_stats(),
    {
        Stats { min: 0, p50: 0, p95: 0, max: 0, count: 0 }
    }

    /// Summarizes the samples: minimum, median, 95th percentile, maximum and count.
    pub fn summarize(samples: Vec<u64>) -> (s: Self)
        ensures
            s == stats_of(samples@),
    {
        if samples.len() == 0 {
            return Self::empty();
        }
        let mut samples = samples;
        let ghost unsorted = samples@;
        sort_keys(&mut samples);
        proof {
            lemma_sorted_rearrangement(unsorted, samples@);
            vstd::seq_lib::to_multiset_len(unsorted);
            vstd::seq_lib::to_multiset_len(samples@);
        }
        let count = samples.len();
        let min = samples[0];
        let max = samples[count - 1];
        let p50 = percentile_sorted(&samples, 500);
        let p95 = percentile_sorted(&samples, 950);
        Stats { min, p50, p95, max, count }
    }

    /// The middle samples of `values`, whose mean is their median.
    pub fn median(values: &[u64]) -> (m: Middle)
        ensures
            m == middle_of(values@),
    {
        if values.len() == 0 {
            return Middle::Empty;
        }
        let mut sorted = vstd::slice::slice_to_vec(values);
        sort_keys(&mut sorted);
        proof {
            lemma_sorted_rearrangement(values@, sorted@);
            lemma_sorted_keys_facts(values@);
        }
        let mid = sorted.len() / 2;
        if sorted.len() % 2 == 0 {
            Middle::Pair(sorted[mid - 1], sorted[mid])
        } else {
            Middle::Single(sorted[mid])
        }
    }
}

/// Labelled summaries, one per reported metric, in the order they were added.
pub struct MetricReport {
    pub labels: Vec<(String, Stats)>,
}

impl MetricReport {
    pub fn new() -> (r: Self)
        ensures
            r.labels@ == Seq::<(String, Stats)>::empty(),
    {
        MetricReport { labels: Vec::new() }
    }

    /// Appends the summary of `samples` under `label`.
    pub fn push(&mut self, label: String, samples: Vec<u64>)
        ensures
            final(self).labels@ == old(self).labels@.push((label, stats_of(samples@))),
    {
        let stats = Stats::summarize(samples);
        self.labels.push((label, stats));
    }
}

impl Default for MetricReport {
    fn default() -> (r: Self)
        ensures
            r.labels@ == Seq::<(String, Stats)>::empty(),
    {
        Self::new()
    }
}

/// Law: a summary is ordered (`min <= p50 <= p95 <= max`), its minimum and
/// maximum are samples, and every sample lies between them.
pub proof fn lemma_stats_ordered(s: Seq<u64>)
    requires
        0 < s.len() <= usize::MAX,
    ensures
        stats_of(s).min <= stats_of(s).p50,
        stats_of(s).p50 <= stats_of(s).p95,
        stats_of(s).p95 <= stats_of(s).max,
        s.contains(stats_of(s).min),
        s.contains(stats_of(s).max),
        forall|i: int| 0 <= i < s.len() ==> stats_of(s).min <= #[trigger] s[i] <= stats_of(s).max,
        stats_of(s).count == s.len(),
{
    lemma_sorted_keys_facts(s);
    let t = sorted_keys(s);
    let n = s.len();
    assert(rank_index(n, 500) <= rank_index(n, 950)) by (nonlinear_arith)
        requires
            n >= 1,
    ;
    assert(t.contains(t[0]));
    assert(t.contains(t[n - 1]));
    assert(t.to_multiset().count(t[0]) > 0);
    assert(t.to_multiset().count(t[n - 1]) > 0);
    assert forall|i: int| 0 <= i < s.len() implies t[0] <= #[trigger] s[i] <= t[n - 1] by {
        assert(s.contains(s[i]));
        assert(s.to_multiset().count(s[i]) > 0);
        assert(t.contains(s[i]));
        let j = choose|j: int| 0 <= j < t.len() && t[j] == s[i];
        if j > 0 {
            assert(key_order()(t[0], t[j]));
        }
        if j < n - 1 {
            assert(key_order()(t[j], t[n - 1]));
        }
    }
    let r50 = rank_index(n, 500);
    let r95 = rank_index(n, 950);
    if 0 < r50 {
        assert(key_order()(t[0], t[r50]));
    }
    if r50 < r95 {
        assert(key_order()(t[r50], t[r95]));
    }
    if r95 < n - 1 {
        assert(key_order()(t[r95], t[n - 1]));
    }
}

/// Law: a summary depends only on which samples were taken, not on their order.
pub proof fn lemma_stats_order_independent(s1: Seq<u64>, s2: Seq<u64>)
    requires
        s1.to_multiset() == s2.to_multiset(),
    ensures
        stats_of(s1) == stats_of(s2),
        middle_of(s1) == middle_of(s2),
        forall|p: nat| percentile_of(s1, p) == #[trigger] percentile_of(s2, p),
{
    lemma_sorted_keys_facts(s1);
    lemma_sorted_keys_facts(s2);
    lemma_sorted_rearrangement(s2, sorted_keys(s1));
    vstd::seq_lib::to_multiset_len(s1);
    vstd::seq_lib::to_multiset_len(s2);
}

/// Law: a higher percentile is never below a lower one.
pub proof fn lemma_percentile_monotone(s: Seq<u64>, p: nat, q: nat)
    requires
        p <= q,
    ensures
        percentile_of(s, p) <= percentile_of(s, q),
{
    if s.len() > 0 {
        lemma_sorted_keys_facts(s);
        let n = s.len();
        let i = rank_index(n, p);
        let j = rank_index(n, q);
        assert(n * p <= n * q) by (nonlinear_arith)
            requires
                p <= q,
        ;
        assert(i <= j);
        if i < j {
            assert(key_order()(sorted_keys(s)[i], sorted_keys(s)[j]));
        }
    }
}

/// Law: the 0th percentile is the minimum and the 100th the maximum.
pub proof fn lemma_percentile_extremes(s: Seq<u64>)
    requires
        0 < s.len() <= usize::MAX,
    ensures
        percentile_of(s, 0) == stats_of(s).min,
        percentile_of(s, 1000) == stats_of(s).max,
{
}

/// Law: the middle samples are neighbours in ascending order, so the median
/// lies between them, and between the minimum and the maximum.
pub proof fn lemma_middle_ordered(s: Seq<u64>)
    requires
        0 < s.len() <= usize::MAX,
    ensures
        middle_of(s) matches Middle::Pair(a, b) ==> stats_of(s).min <= a <= b <= stats_of(s).max,
        middle_of(s) matches Middle::Single(a) ==> stats_of(s).min <= a <= stats_of(s).max,
{
    lemma_sorted_keys_facts(s);
    let t = sorted_keys(s);
    let n = s.len();
    let mid = n / 2;
    if n % 2 == 0 {
        if 0 < mid - 1 {
            assert(key_order()(t[0], t[mid - 1]));
        }
        assert(key_order()(t[mid - 1], t[mid as int]));
        if mid < n - 1 {
            assert(key_order()(t[mid as int], t[n - 1]));
        }
    } else {
        if 0 < mid {
            assert(key_order()(t[0], t[mid as int]));
        }
        if mid < n - 1 {
            assert(key_order()(t[mid as int], t[n - 1]));
        }
    }
}


/// Keeps the samples at or below `v`.
pub open spec fn at_most(v: u64) -> spec_fn(u64) -> bool {
    |x: u64| x <= v
}

/// Keeps the samples strictly below `v`.
pub open spec fn below(v: u64) -> spec_fn(u64) -> bool {
    |x: u64| x < v
}

proof fn lemma_filter_push_len(s: Seq<u64>, x: u64, f: spec_fn(u64) -> bool)
    ensures
        s.push(x).filter(f).len() == s.filter(f).len() + (if f(x) { 1int } else { 0int }),
{
    s.lemma_filter_len_push(f, x);
}

/// How many samples a predicate keeps depends only on which samples there are.
proof fn lemma_filter_len_permutation(s: Seq<u64>, t: Seq<u64>, f: spec_fn(u64) -> bool)
    requires
        s.to_multiset() == t.to_multiset(),
    ensures
        s.filter(f).len() == t.filter(f).len(),
    decreases s.len(),
{
    vstd::seq_lib::to_multiset_len(s);
    vstd::seq_lib::to_multiset_len(t);
    if s.len() == 0 {
        assert(t =~= Seq::<u64>::empty());
        assert(s =~= Seq::<u64>::empty());
    } else {
        let x = s.last();
        let s1 = s.drop_last();
        assert(s1.push(x) == s);
        assert(s.to_multiset().count(x) > 0);
        vstd::seq_lib::to_multiset_contains(t, x);
        assert(t.contains(x));
        let j = choose|j: int| 0 <= j < t.len() && t[j] == x;
        let t1 = t.remove(j);
        vstd::seq_lib::to_multiset_remove(t, j);
        vstd::seq_lib::to_multiset_build(s1, x);
        assert(s1.to_multiset() =~= t1.to_multiset());
        lemma_filter_len_permutation(s1, t1, f);
        lemma_filter_push_len(s1, x, f);
        let a = t.subrange(0, j);
        let b = t.subrange(j + 1, t.len() as int);
        assert(t == a + seq![x] + b);
        assert(t1 == a + b);
        Seq::filter_distributes_over_add(a + seq![x], b, f);
        Seq::filter_distributes_over_add(a, seq![x], f);
        Seq::filter_distributes_over_add(a, b, f);
        assert(a.push(x) == a + seq![x]);
        lemma_filter_push_len(a, x, f);
    }
}

/// A predicate that every sample meets keeps them all; one that none meets
/// keeps none.
proof fn lemma_filter_all_or_none(s: Seq<u64>, f: spec_fn(u64) -> bool)
    ensures
        (forall|i: int| 0 <= i < s.len() ==> f(#[trigger] s[i])) ==> s.filter(f).len() == s.len(),
        (forall|i: int| 0 <= i < s.len() ==> !f(#[trigger] s[i])) ==> s.filter(f).len() == 0,
        s.filter(f).len() <= s.len(),
    decreases s.len(),
{
    if s.len() > 0 {
        let p = s.drop_last();
        assert(p.push(s.last()) == s);
        assert(forall|i: int| 0 <= i < p.len() ==> p[i] == s[i]);
        lemma_filter_all_or_none(p, f);
        lemma_filter_push_len(p, s.last(), f);
        assert(s[s.len() - 1] == s.last());
    } else {
        reveal_with_fuel(Seq::filter, 1);
    }
}

/// Law (nearest rank): the `per_mille`/1000 percentile of a non-empty sample
/// set is one of the samples, at least `n * per_mille / 1000` samples lie at
/// or below it, and fewer than that lie strictly below it (none for the 0th
/// percentile). It is thus the smallest sample that covers the requested
/// share of the samples.
pub proof fn lemma_percentile_nearest_rank(s: Seq<u64>, per_mille: nat)
    requires
        s.len() > 0,
        per_mille <= 1000,
    ensures
        s.contains(percentile_of(s, per_mille)),
        s.filter(at_most(percentile_of(s, per_mille))).len() * 1000 >= s.len() * per_mille,
        s.filter(below(percentile_of(s, per_mille))).len() * 1000 < s.len() * per_mille || s.filter(
            below(percentile_of(s, per_mille)),
        ).len() == 0,
{
    lemma_sorted_keys_facts(s);
    let t = sorted_keys(s);
    let n = s.len();
    let r = rank_index(n, per_mille);
    let v = t[r];
    assert(0 <= r < n);
    // The percentile is a sample.
    assert(t.contains(v));
    assert(t.to_multiset().count(v) > 0);
    vstd::seq_lib::to_multiset_contains(s, v);
    // Counting on the ascending order.
    lemma_filter_len_permutation(s, t, at_most(v));
    lemma_filter_len_permutation(s, t, below(v));
    let lo = t.take(r + 1);
    let hi = t.skip(r + 1);
    assert(t == lo + hi);
    Seq::filter_distributes_over_add(lo, hi, at_most(v));
    assert forall|i: int| 0 <= i < lo.len() implies at_most(v)(#[trigger] lo[i]) by {
        if i < r {
            assert(key_order()(t[i], t[r]));
        }
    }
    lemma_filter_all_or_none(lo, at_most(v));
    lemma_filter_all_or_none(hi, at_most(v));
    let lo2 = t.take(r);
    let hi2 = t.skip(r);
    assert(t == lo2 + hi2);
    Seq::filter_distributes_over_add(lo2, hi2, below(v));
    assert forall|i: int| 0 <= i < hi2.len() implies !below(v)(#[trigger] hi2[i]) by {
        if i > 0 {
            assert(key_order()(t[r], t[r + i]));
        }
    }
    lemma_filter_all_or_none(lo2, below(v));
    lemma_filter_all_or_none(hi2, below(v));
    // The rank arithmetic.
    let x = n * per_mille;
    let c = (x + 999) / 1000;
    assert(c * 1000 >= x && c * 1000 < x + 1000);
    assert(n * per_mille <= n * 1000) by (nonlinear_arith)
        requires
            per_mille <= 1000,
    ;
    assert((r + 1) * 1000 >= x);
    assert(r == 0 || r * 1000 < x);
}


/// Law: a summary's median and 95th percentile are samples chosen by
/// nearest rank: at least half (95%) of the samples lie at or below them,
/// and fewer than half (95%) strictly below.
pub proof fn lemma_stats_nearest_rank(s: Seq<u64>)
    requires
        0 < s.len() <= usize::MAX,
    ensures
        s.contains(stats_of(s).p50),
        s.filter(at_most(stats_of(s).p50)).len() * 2 >= s.len(),
        s.filter(below(stats_of(s).p50)).len() * 2 < s.len(),
        s.contains(stats_of(s).p95),
        s.filter(at_most(stats_of(s).p95)).len() * 20 >= s.len() * 19,
        s.filter(below(stats_of(s).p95)).len() * 20 < s.len() * 19,
{
    lemma_percentile_nearest_rank(s, 500);
    lemma_percentile_nearest_rank(s, 950);
}

} // verus!
