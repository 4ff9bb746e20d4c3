use vstd::prelude::*;

verus! {

/// The counter operation one bench iteration performs.
#[derive(Debug, Clone, Copy, PartialEq, Eq, Structural)]
pub enum BenchOp {
    Read,
    Write,
    Increment,
}

/// The name under which an operation is reported.
pub open spec fn bench_op_name(op: BenchOp) -> Seq<char> {
    match op {
        BenchOp::Read => "read"@,
        BenchOp::Write => "write"@,
        BenchOp::Increment => "increment"@,
    }
}

impl BenchOp {
    pub fn as_str(self) -> (name: &'static str)
        ensures
            name@ == bench_op_name(self),
    {
        match self {
            BenchOp::Read => "read",
            BenchOp::Write => "write",
            BenchOp::Increment => "increment",
        }
    }
}

/// A metric recorded per increment iteration.
#[derive(Debug, Clone, Copy, PartialEq, Eq, Structural)]
pub enum IncrementMetric {
    UserCounterGet,
    CounterGet,
    UserCounterCommit,
    CounterCommit,
    IncrementTotal,
    SpectraEventsPerIter,
    SpectraGaugesPerIter,
    BosonQueued,
    DbRetryCount,
    DbRetryTotalSleep,
}

/// The label a metric is reported under.
pub open spec fn metric_label(m: IncrementMetric) -> Seq<char> {
    match m {
        IncrementMetric::UserCounterGet => "user_counter_get_ms"@,
        IncrementMetric::CounterGet => "counter_get_ms"@,
        IncrementMetric::UserCounterCommit => "user_counter_commit_ms"@,
        IncrementMetric::CounterCommit => "counter_commit_ms"@,
        IncrementMetric::IncrementTotal => "increment_total_ms"@,
        IncrementMetric::SpectraEventsPerIter => "spectra_events_per_iter"@,
        IncrementMetric::SpectraGaugesPerIter => "spectra_gauges_per_iter"@,
        IncrementMetric::BosonQueued => "boson_queued"@,
        IncrementMetric::DbRetryCount => "db_retry_count"@,
        IncrementMetric::DbRetryTotalSleep => "db_retry_total_sleep_ms"@,
    }
}

impl IncrementMetric {
    pub fn label(self) -> (label: &'static str)
        ensures
            label@ == metric_label(self),
    {
        match self {
            IncrementMetric::UserCounterGet => "user_counter_get_ms",
            IncrementMetric::CounterGet => "counter_get_ms",
            IncrementMetric::UserCounterCommit => "user_counter_commit_ms",
            IncrementMetric::CounterCommit => "counter_commit_ms",
            IncrementMetric::IncrementTotal => "increment_total_ms",
            IncrementMetric::SpectraEventsPerIter => "spectra_events_per_iter",
            IncrementMetric::SpectraGaugesPerIter => "spectra_gauges_per_iter",
            IncrementMetric::BosonQueued => "boson_queued",
            IncrementMetric::DbRetryCount => "db_retry_count",
            IncrementMetric::DbRetryTotalSleep => "db_retry_total_sleep_ms",
        }
    }
}

/// The metrics an increment run reports at a tier, in order: the step
/// latencies, the metric counts once metrics are recorded (tier 2), queued
/// jobs once the job queue runs (tier 1), and store retries.
pub open spec fn reported_metrics(tier: u8) -> Seq<IncrementMetric> {
    let steps = seq![
        IncrementMetric::UserCounterGet,
        IncrementMetric::CounterGet,
        IncrementMetric::UserCounterCommit,
        IncrementMetric::CounterCommit,
        IncrementMetric::IncrementTotal,
    ];
    let with_metrics = if tier >= 2 {
        steps + seq![IncrementMetric::SpectraEventsPerIter, IncrementMetric::SpectraGaugesPerIter]
    } else {
        steps
    };
    let with_jobs = if tier >= 1 {
        with_metrics.push(IncrementMetric::BosonQueued)
    } else {
        with_metrics
    };
    with_jobs + seq![IncrementMetric::DbRetryCount, IncrementMetric::DbRetryTotalSleep]
}

pub fn reported_increment_metrics(tier: u8) -> (metrics: Vec<IncrementMetric>)
    ensures
        metrics@ == reported_metrics(tier),
{
    let mut metrics = vec![
        IncrementMetric::UserCounterGet,
        IncrementMetric::CounterGet,
        IncrementMetric::UserCounterCommit,
        IncrementMetric::CounterCommit,
        IncrementMetric::IncrementTotal,
    ];
    if tier >= 2 {
        metrics.push(IncrementMetric::SpectraEventsPerIter);
        metrics.push(IncrementMetric::SpectraGaugesPerIter);
    }
    if tier >= 1 {
        metrics.push(IncrementMetric::BosonQueued);
    }
    metrics.push(IncrementMetric::DbRetryCount);
    metrics.push(IncrementMetric::DbRetryTotalSleep);
    metrics
}

} // verus!
