//! Open-loop bell-curve load: per-window accounting of offered requests.
//!
//! Latencies are order keys (see `stats`); request rates, which divide by the
//! window length, are derived from the counts here by the caller.
use vstd::prelude::*;

use crate::stats::{
    at_most, below, lemma_percentile_nearest_rank, lemma_sorted_keys_facts, percentile_of,
    sorted_keys, Stats,
};

verus! {

/// One scheduled request: its latency key, whether it succeeded, whether it
/// was shed because too many requests were in flight, and its window.
#[derive(Debug, Clone, Copy, PartialEq, Eq, Structural)]
pub struct BellSample {
    pub latency_key: u64,
    pub ok: bool,
    pub overflow: bool,
    pub bucket: u64,
}

/// Latency summary of the successful requests of a window or a whole run.
#[derive(Debug, Clone, Copy, PartialEq, Eq, Structural)]
pub struct BellStats {
    pub count: usize,
    pub min: u64,
    pub p50: u64,
    pub p90: u64,
    pub p99: u64,
    pub max: u64,
}

/// Request accounting of one aggregation window.
#[derive(Debug, Clone, Copy, PartialEq, Eq, Structural)]
pub struct MinuteBucket {
    pub minute: u64,
    pub offered: u64,
    /// Requests that completed successfully.
    pub completed: u64,
    pub overflow: u64,
    pub errors: u64,
    pub latency: BellStats,
}

/// Request accounting of a whole run.
pub struct BellSummary {
    pub offered_total: u64,
    /// Requests that were sent (not shed), successful or not.
    pub completed_total: u64,
    pub overflow_total: u64,
    pub error_total: u64,
    pub overall: BellStats,
    pub per_minute: Vec<MinuteBucket>,
}

pub open spec fn is_shed(x: BellSample) -> bool {
    x.overflow
}

pub open spec fn is_sent(x: BellSample) -> bool {
    !x.overflow
}

pub open spec fn is_error(x: BellSample) -> bool {
    !x.overflow && !x.ok
}

pub open spec fn is_success(x: BellSample) -> bool {
    !x.overflow && x.ok
}

pub open spec fn shed_pred() -> spec_fn(BellSample) -> bool {
    |x: BellSample| is_shed(x)
}

pub open spec fn sent_pred() -> spec_fn(BellSample) -> bool {
    |x: BellSample| is_sent(x)
}

pub open spec fn error_pred() -> spec_fn(BellSample) -> bool {
    |x: BellSample| is_error(x)
}

pub open spec fn success_pred() -> spec_fn(BellSample) -> bool {
    |x: BellSample| is_success(x)
}

pub open spec fn bucket_pred(b: u64) -> spec_fn(BellSample) -> bool {
    |x: BellSample| x.bucket == b
}

/// Latency keys of the successful requests, in order.
pub open spec fn success_latencies(s: Seq<BellSample>) -> Seq<u64>
    decreases s.len(),
{
    if s.len() == 0 {
        Seq::empty()
    } else {
        let rest = success_latencies(s.drop_last());
        if is_success(s.last()) {
            rest.push(s.last().latency_key)
        } else {
            rest
        }
    }
}

/// The requests of window `b`.
pub open spec fn in_bucket(s: Seq<BellSample>, b: u64) -> Seq<BellSample> {
    s.filter(bucket_pred(b))
}

pub open spec fn bell_stats_of(lat: Seq<u64>) -> BellStats {
    if lat.len() == 0 {
        BellStats { count: 0, min: 0, p50: 0, p90: 0, p99: 0, max: 0 }
    } else {
        BellStats {
            count: lat.len() as usize,
            min: sorted_keys(lat)[0],
            p50: percentile_of(lat, 500),
            p90: percentile_of(lat, 900),
            p99: percentile_of(lat, 990),
            max: sorted_keys(lat)[lat.len() - 1],
        }
    }
}

/// The accounting of window `b`.
pub open spec fn bucket_of(s: Seq<BellSample>, b: u64) -> MinuteBucket {
    let w = in_bucket(s, b);
    MinuteBucket {
        minute: b,
        offered: w.len() as u64,
        completed: w.filter(success_pred()).len() as u64,
        overflow: w.filter(shed_pred()).len() as u64,
        errors: w.filter(error_pred()).len() as u64,
        latency: bell_stats_of(success_latencies(w)),
    }
}

/// Number of windows covering the run: `ceil(duration / window)`.
pub open spec fn num_buckets(duration_secs: u64, bucket_secs: u64) -> nat {
    (duration_secs / bucket_secs + (if duration_secs % bucket_secs == 0 { 0int } else { 1 })) as nat
}

/// The accounting of a run, overall and per window.
pub open spec fn summary_matches(r: BellSummary, s: Seq<BellSample>, duration_secs: u64, bucket_secs: u64) -> bool {
    &&& r.offered_total == s.len()
    &&& r.overflow_total == s.filter(shed_pred()).len()
    &&& r.completed_total == s.filter(sent_pred()).len()
    &&& r.error_total == s.filter(error_pred()).len()
    &&& r.overall == bell_stats_of(success_latencies(s))
    &&& r.per_minute@.len() == num_buckets(duration_secs, bucket_secs)
    &&& forall|b: int|
        0 <= b < r.per_minute@.len() ==> #[trigger] r.per_minute@[b] == bucket_of(s, b as u64)
}

pub proof fn lemma_filter_push<A>(s: Seq<A>, x: A, p: spec_fn(A) -> bool)
    ensures
        s.push(x).filter(p) == (if p(x) { s.filter(p).push(x) } else { s.filter(p) }),
{
    reveal_with_fuel(Seq::filter, 1);
    assert(s.push(x).drop_last() == s);
}

proof fn lemma_success_push(s: Seq<BellSample>, x: BellSample)
    ensures
        success_latencies(s.push(x)) == (if is_success(x) {
            success_latencies(s).push(x.latency_key)
        } else {
            success_latencies(s)
        }),
{
    assert(s.push(x).drop_last() == s);
}

proof fn lemma_success_len(s: Seq<BellSample>)
    ensures
        success_latencies(s).len() == s.filter(success_pred()).len(),
    decreases s.len(),
{
    if s.len() > 0 {
        lemma_success_len(s.drop_last());
        assert(s.drop_last().push(s.last()) == s);
        lemma_filter_push(s.drop_last(), s.last(), success_pred());
    }
}

proof fn lemma_filter_len_bound<A>(s: Seq<A>, p: spec_fn(A) -> bool)
    ensures
        s.filter(p).len() <= s.len(),
{
    s.lemma_filter_len(p);
}

fn bell_stats(lat: Vec<u64>) -> (st: BellStats)
    ensures
        st == bell_stats_of(lat@),
{
    if lat.len() == 0 {
        return BellStats { count: 0, min: 0, p50: 0, p90: 0, p99: 0, max: 0 };
    }
    let p90 = crate::experiments::percentile(lat.as_slice(), 900);
    let p99 = crate::experiments::percentile(lat.as_slice(), 990);
    let s = Stats::summarize(lat);
    BellStats { count: s.count, min: s.min, p50: s.p50, p90, p99, max: s.max }
}

/// The accounting of window `b`.
fn summarize_bucket(samples: &Vec<BellSample>, b: u64) -> (m: MinuteBucket)
    ensures
        m == bucket_of(samples@, b),
{
    let mut offered: u64 = 0;
    let mut completed: u64 = 0;
    let mut overflow: u64 = 0;
    let mut errors: u64 = 0;
    let mut latencies: Vec<u64> = Vec::new();
    let mut i: usize = 0;
    while i < samples.len()
        invariant
            0 <= i <= samples@.len(),
            offered as int == samples@.take(i as int).filter(bucket_pred(b)).len(),
            completed as int == samples@.take(i as int).filter(bucket_pred(b)).filter(success_pred()).len(),
            overflow as int == samples@.take(i as int).filter(bucket_pred(b)).filter(shed_pred()).len(),
            errors as int == samples@.take(i as int).filter(bucket_pred(b)).filter(error_pred()).len(),
            latencies@ == success_latencies(samples@.take(i as int).filter(bucket_pred(b))),
            offered <= i,
            completed <= offered,
            overflow <= offered,
            errors <= offered,
        decreases samples@.len() - i,
    {
        let x = samples[i];
        let ghost pre = samples@.take(i as int);
        let ghost w = pre.filter(bucket_pred(b));
        proof {
            assert(samples@.take(i + 1) == pre.push(x));
            lemma_filter_push(pre, x, bucket_pred(b));
            lemma_filter_push(w, x, success_pred());
            lemma_filter_push(w, x, shed_pred());
            lemma_filter_push(w, x, error_pred());
            lemma_success_push(w, x);
            lemma_filter_len_bound(w, success_pred());
            lemma_filter_len_bound(w, shed_pred());
            lemma_filter_len_bound(w, error_pred());
        }
        if x.bucket == b {
            offered = offered + 1;
            if x.overflow {
                overflow = overflow + 1;
            } else if x.ok {
                completed = completed + 1;
                latencies.push(x.latency_key);
            } else {
                errors = errors + 1;
            }
        }
        i = i + 1;
    }
    proof {
        assert(samples@.take(samples@.len() as int) == samples@);
    }
    let latency = bell_stats(latencies);
    MinuteBucket { minute: b, offered, completed, overflow, errors, latency }
}

/// Accounts a run's requests overall and per window: offered, shed,
/// sent, failed, and the latency of the successful ones. Windows are
/// `bucket_secs` long and cover `duration_secs`.
pub fn summarize_buckets(samples: &Vec<BellSample>, duration_secs: u64, bucket_secs: u64) -> (r:
    BellSummary)
    requires
        bucket_secs > 0,
    ensures
        summary_matches(r, samples@, duration_secs, bucket_secs),
{
    let mut overflow_total: u64 = 0;
    let mut completed_total: u64 = 0;
    let mut error_total: u64 = 0;
    let mut ok_latencies: Vec<u64> = Vec::new();
    let mut i: usize = 0;
    while i < samples.len()
        invariant
            0 <= i <= samples@.len(),
            overflow_total as int == samples@.take(i as int).filter(shed_pred()).len(),
            completed_total as int == samples@.take(i as int).filter(sent_pred()).len(),
            error_total as int == samples@.take(i as int).filter(error_pred()).len(),
            ok_latencies@ == success_latencies(samples@.take(i as int)),
            overflow_total <= i,
            completed_total <= i,
            error_total <= i,
        decreases samples@.len() - i,
    {
        let x = samples[i];
        let ghost pre = samples@.take(i as int);
        proof {
            assert(samples@.take(i + 1) == pre.push(x));
            lemma_filter_push(pre, x, shed_pred());
            lemma_filter_push(pre, x, sent_pred());
            lemma_filter_push(pre, x, error_pred());
            lemma_success_push(pre, x);
            lemma_filter_len_bound(pre, shed_pred());
            lemma_filter_len_bound(pre, sent_pred());
            lemma_filter_len_bound(pre, error_pred());
        }
        if x.overflow {
            overflow_total = overflow_total + 1;
        } else {
            completed_total = completed_total + 1;
            if x.ok {
                ok_latencies.push(x.latency_key);
            } else {
                error_total = error_total + 1;
            }
        }
        i = i + 1;
    }
    proof {
        assert(samples@.take(samples@.len() as int) == samples@);
    }
    let overall = bell_stats(ok_latencies);
    assert(duration_secs % bucket_secs != 0 ==> duration_secs / bucket_secs < u64::MAX) by (nonlinear_arith)
        requires
            bucket_secs > 0,
    ;
    let num = duration_secs / bucket_secs + if duration_secs % bucket_secs == 0 {
        0
    } else {
        1
    };
    let mut per_minute: Vec<MinuteBucket> = Vec::new();
    let mut b: u64 = 0;
    while b < num
        invariant
            num as nat == num_buckets(duration_secs, bucket_secs),
            b <= num,
            per_minute@.len() == b,
            forall|k: int| 0 <= k < b ==> #[trigger] per_minute@[k] == bucket_of(samples@, k as u64),
        decreases num - b,
    {
        per_minute.push(summarize_bucket(samples, b));
        b = b + 1;
    }
    BellSummary {
        offered_total: samples.len() as u64,
        completed_total,
        overflow_total,
        error_total,
        overall,
        per_minute,
    }
}

proof fn lemma_filter_split<A>(s: Seq<A>, p: spec_fn(A) -> bool, q: spec_fn(A) -> bool)
    requires
        forall|x: A| #[trigger] q(x) == !p(x),
    ensures
        s.filter(p).len() + s.filter(q).len() == s.len(),
    decreases s.len(),
{
    if s.len() > 0 {
        lemma_filter_split(s.drop_last(), p, q);
        assert(s.drop_last().push(s.last()) == s);
        lemma_filter_push(s.drop_last(), s.last(), p);
        lemma_filter_push(s.drop_last(), s.last(), q);
    }
}

/// Every request is either shed or sent, and every sent one either
/// succeeded or failed.
proof fn lemma_request_partition(s: Seq<BellSample>)
    ensures
        s.filter(shed_pred()).len() + s.filter(sent_pred()).len()
            == s.len(),
        s.filter(success_pred()).len() + s.filter(error_pred()).len()
            == s.filter(sent_pred()).len(),
        s.filter(success_pred()).len() + s.filter(error_pred()).len()
            + s.filter(shed_pred()).len() == s.len(),
    decreases s.len(),
{
    lemma_filter_split(s, shed_pred(), sent_pred());
    if s.len() > 0 {
        let p = s.drop_last();
        let x = s.last();
        lemma_request_partition(p);
        assert(p.push(x) == s);
        lemma_filter_push(p, x, success_pred());
        lemma_filter_push(p, x, error_pred());
        lemma_filter_push(p, x, sent_pred());
        lemma_filter_push(p, x, shed_pred());
    }
}

/// Law: in the run accounting, every offered request was shed_pred() or sent_pred(), every
/// sent_pred() one succeeded or failed, and only successful requests have latencies.
pub proof fn lemma_summary_accounts_every_request(
    r: BellSummary,
    s: Seq<BellSample>,
    duration_secs: u64,
    bucket_secs: u64,
)
    requires
        summary_matches(r, s, duration_secs, bucket_secs),
        s.len() <= usize::MAX,
    ensures
        r.offered_total == r.completed_total + r.overflow_total,
        r.completed_total == r.overall.count + r.error_total,
{
    lemma_request_partition(s);
    lemma_success_len(s);
}

/// Law: in every window, the offered requests are exactly the successful,
/// the failed and the shed_pred() ones.
pub proof fn lemma_bucket_accounts_every_request(s: Seq<BellSample>, b: u64)
    requires
        s.len() <= usize::MAX,
    ensures
        bucket_of(s, b).offered == bucket_of(s, b).completed + bucket_of(s, b).errors + bucket_of(
            s,
            b,
        ).overflow,
        bucket_of(s, b).completed == bucket_of(s, b).latency.count,
{
    let w = in_bucket(s, b);
    lemma_request_partition(w);
    lemma_success_len(w);
    lemma_filter_len_bound(s, bucket_pred(b));
}

/// Requests offered in windows `0..n`.
pub open spec fn offered_in_windows(s: Seq<BellSample>, n: nat) -> int
    decreases n,
{
    if n == 0 {
        0
    } else {
        offered_in_windows(s, (n - 1) as nat) + in_bucket(s, (n - 1) as u64).len()
    }
}

/// Sum of the offered counts of a list of windows.
pub open spec fn sum_offered(buckets: Seq<MinuteBucket>) -> int
    decreases buckets.len(),
{
    if buckets.len() == 0 {
        0
    } else {
        sum_offered(buckets.drop_last()) + buckets.last().offered
    }
}

proof fn lemma_offered_in_windows_push(s: Seq<BellSample>, x: BellSample, n: nat)
    requires
        n <= u64::MAX + 1,
    ensures
        offered_in_windows(s.push(x), n) == offered_in_windows(s, n) + (if x.bucket < n {
            1int
        } else {
            0
        }),
    decreases n,
{
    if n > 0 {
        lemma_offered_in_windows_push(s, x, (n - 1) as nat);
        lemma_filter_push(s, x, bucket_pred((n - 1) as u64));
    }
}

proof fn lemma_offered_in_windows_all(s: Seq<BellSample>, n: nat)
    requires
        n <= u64::MAX + 1,
        forall|i: int| 0 <= i < s.len() ==> (#[trigger] s[i]).bucket < n,
    ensures
        offered_in_windows(s, n) == s.len(),
    decreases s.len(),
{
    if s.len() == 0 {
        lemma_offered_in_windows_empty(s, n);
    } else {
        let p = s.drop_last();
        assert forall|i: int| 0 <= i < p.len() implies (#[trigger] p[i]).bucket < n by {
            assert(p[i] == s[i]);
        }
        lemma_offered_in_windows_all(p, n);
        assert(p.push(s.last()) == s);
        lemma_offered_in_windows_push(p, s.last(), n);
    }
}

proof fn lemma_offered_in_windows_empty(s: Seq<BellSample>, n: nat)
    requires
        s.len() == 0,
    ensures
        offered_in_windows(s, n) == 0,
    decreases n,
{
    if n > 0 {
        lemma_offered_in_windows_empty(s, (n - 1) as nat);
        reveal_with_fuel(Seq::filter, 1);
    }
}

proof fn lemma_sum_offered_prefix(r: Seq<MinuteBucket>, s: Seq<BellSample>, k: nat)
    requires
        k <= r.len(),
        r.len() <= u64::MAX + 1,
        s.len() <= u64::MAX,
        forall|b: int| 0 <= b < r.len() ==> #[trigger] r[b] == bucket_of(s, b as u64),
    ensures
        sum_offered(r.take(k as int)) == offered_in_windows(s, k),
    decreases k,
{
    if k > 0 {
        lemma_sum_offered_prefix(r, s, (k - 1) as nat);
        assert(r.take(k as int).drop_last() == r.take(k - 1));
        lemma_filter_len_bound(s, bucket_pred((k - 1) as u64));
    }
}

/// Law: when every request falls in one of the run's windows, the windows'
/// offered counts add up to the run's offered total.
pub proof fn lemma_windows_partition_offered(
    r: BellSummary,
    s: Seq<BellSample>,
    duration_secs: u64,
    bucket_secs: u64,
)
    requires
        summary_matches(r, s, duration_secs, bucket_secs),
        s.len() <= u64::MAX,
        bucket_secs > 0,
        forall|i: int|
            0 <= i < s.len() ==> (#[trigger] s[i]).bucket < num_buckets(duration_secs, bucket_secs),
    ensures
        sum_offered(r.per_minute@) == r.offered_total,
{
    let n = r.per_minute@.len();
    assert(n <= u64::MAX + 1) by (nonlinear_arith)
        requires
            n == num_buckets(duration_secs, bucket_secs),
            bucket_secs > 0,
    ;
    lemma_sum_offered_prefix(r.per_minute@, s, n);
    assert(r.per_minute@.take(n as int) == r.per_minute@);
    lemma_offered_in_windows_all(s, n);
}


/// The latency summary ranks its successful latencies by nearest rank.
pub open spec fn ranked_latency_summary(lat: Seq<u64>, st: BellStats) -> bool {
    &&& st.count == lat.len()
    &&& lat.contains(st.min) && lat.filter(below(st.min)).len() == 0
    &&& lat.contains(st.max) && lat.filter(at_most(st.max)).len() == lat.len()
    // The median: at least half of the latencies at or below it, fewer below it.
    &&& lat.contains(st.p50)
    &&& lat.filter(at_most(st.p50)).len() * 2 >= lat.len()
    &&& lat.filter(below(st.p50)).len() * 2 < lat.len()
    // The 90th percentile: at least 90% at or below it, fewer than 90% below it.
    &&& lat.contains(st.p90)
    &&& lat.filter(at_most(st.p90)).len() * 10 >= lat.len() * 9
    &&& lat.filter(below(st.p90)).len() * 10 < lat.len() * 9
    // The 99th percentile: at least 99% at or below it, fewer than 99% below it.
    &&& lat.contains(st.p99)
    &&& lat.filter(at_most(st.p99)).len() * 100 >= lat.len() * 99
    &&& lat.filter(below(st.p99)).len() * 100 < lat.len() * 99
}

/// Law: the latency summary of a non-empty set of latencies gives its
/// smallest and largest latency and its 50th, 90th and 99th percentiles by
/// nearest rank: for 10 latencies, the p90 is the 9th smallest.
pub proof fn lemma_bell_stats_nearest_rank(lat: Seq<u64>)
    requires
        0 < lat.len() <= usize::MAX,
    ensures
        ranked_latency_summary(lat, bell_stats_of(lat)),
{
    let st = bell_stats_of(lat);
    lemma_percentile_nearest_rank(lat, 500);
    lemma_percentile_nearest_rank(lat, 900);
    lemma_percentile_nearest_rank(lat, 990);
    lemma_percentile_nearest_rank(lat, 0);
    lemma_percentile_nearest_rank(lat, 1000);
    lemma_filter_len_bound(lat, at_most(st.max));
    assert(st.min == percentile_of(lat, 0));
    assert(st.max == percentile_of(lat, 1000));
}

/// Law: in a run's accounting, the overall latency summary and that of each
/// window rank the successful latencies of the run, or of the window, by
/// nearest rank.
pub proof fn lemma_summary_latencies_ranked(
    r: BellSummary,
    s: Seq<BellSample>,
    duration_secs: u64,
    bucket_secs: u64,
    b: int,
)
    requires
        summary_matches(r, s, duration_secs, bucket_secs),
        s.len() <= usize::MAX,
    ensures
        success_latencies(s).len() > 0 ==> ranked_latency_summary(success_latencies(s), r.overall),
        0 <= b < r.per_minute@.len() && success_latencies(in_bucket(s, b as u64)).len() > 0
            ==> ranked_latency_summary(
            success_latencies(in_bucket(s, b as u64)),
            r.per_minute@[b].latency,
        ),
{
    lemma_success_len(s);
    lemma_filter_len_bound(s, success_pred());
    if success_latencies(s).len() > 0 {
        lemma_bell_stats_nearest_rank(success_latencies(s));
    }
    if 0 <= b < r.per_minute@.len() {
        let w = in_bucket(s, b as u64);
        lemma_filter_len_bound(s, bucket_pred(b as u64));
        lemma_success_len(w);
        lemma_filter_len_bound(w, success_pred());
        if success_latencies(w).len() > 0 {
            lemma_bell_stats_nearest_rank(success_latencies(w));
        }
    }
}

} // verus!
