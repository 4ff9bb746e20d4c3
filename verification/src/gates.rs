//! Verdicts on a tier's latency delta and on whether stack counters explain it.
use vstd::prelude::*;

verus! {

/// How a tier's increment p95 compares with the previous tier's.
#[derive(Debug, Clone, Copy, PartialEq, Eq, Structural)]
pub enum DeltaVerdict {
    Baseline,
    Conclusive,
    Inconclusive,
}

/// Whether some stack counter grew along with a conclusive latency delta.
#[derive(Debug, Clone, Copy, PartialEq, Eq, Structural)]
pub enum AmplificationVerdict {
    NotApplicable,
    Correlated,
    InconclusiveMechanism,
}

/// Classification of a tier's latency change: a baseline when there is no
/// previous tier, else conclusive or inconclusive by `prev_conclusive`.
pub open spec fn delta_verdict(prev_conclusive: Option<bool>) -> DeltaVerdict {
    match prev_conclusive {
        None => DeltaVerdict::Baseline,
        Some(true) => DeltaVerdict::Conclusive,
        Some(false) => DeltaVerdict::Inconclusive,
    }
}

/// Classifies a tier's delta. `prev_conclusive` is `None` when there is no
/// previous tier, and otherwise whether the p95 delta against it is
/// conclusive (at least 50 ms, or at least the larger of 5 ms and twice the
/// previous p95, with a positive previous p95).
pub fn classify_delta(prev_conclusive: Option<bool>) -> (v: DeltaVerdict)
    ensures
        v == delta_verdict(prev_conclusive),
{
    match prev_conclusive {
        None => DeltaVerdict::Baseline,
        Some(true) => DeltaVerdict::Conclusive,
        Some(false) => DeltaVerdict::Inconclusive,
    }
}

/// Order key (see `stats`) of a 10.0 ms retry-sleep p95: the bit pattern of
/// `10.0f64`. Retry sleep at or above it counts as amplification.
pub const RETRY_SLEEP_THRESHOLD_KEY: u64 = 0x4024_0000_0000_0000;

/// A per-iteration count at least doubled from a non-zero previous value.
pub open spec fn count_doubled(prev: Option<u64>, curr: u64) -> bool {
    match prev {
        Some(p) => p > 0 && curr >= 2 * p,
        None => false,
    }
}

/// Queued background jobs are present and exceed the previous tier's.
pub open spec fn boson_grew(prev: Option<u64>, curr: u64) -> bool {
    curr >= 1 && match prev {
        Some(p) => curr > p,
        None => true,
    }
}

/// Store retries are present where the previous tier had none.
pub open spec fn retries_appeared(prev: Option<u64>, curr: u64) -> bool {
    curr >= 1 && match prev {
        Some(p) => p == 0,
        None => true,
    }
}

/// Amplification is judged only for a conclusive latency change, and is
/// correlated when at least one counter meets its threshold.
pub open spec fn amplification_spec(
    delta: DeltaVerdict,
    prev_events_p95: Option<u64>,
    curr_events_p95: u64,
    prev_gauges_p95: Option<u64>,
    curr_gauges_p95: u64,
    prev_boson_p95: Option<u64>,
    curr_boson_p95: u64,
    prev_retry_p95: Option<u64>,
    curr_retry_p95: u64,
    curr_retry_sleep_p95_key: u64,
) -> AmplificationVerdict {
    if delta != DeltaVerdict::Conclusive {
        AmplificationVerdict::NotApplicable
    } else if count_doubled(prev_events_p95, curr_events_p95) || count_doubled(
        prev_gauges_p95,
        curr_gauges_p95,
    ) || boson_grew(prev_boson_p95, curr_boson_p95) || retries_appeared(
        prev_retry_p95,
        curr_retry_p95,
    ) || curr_retry_sleep_p95_key >= RETRY_SLEEP_THRESHOLD_KEY {
        AmplificationVerdict::Correlated
    } else {
        AmplificationVerdict::InconclusiveMechanism
    }
}

fn doubled(prev: Option<u64>, curr: u64) -> (b: bool)
    ensures
        b == count_doubled(prev, curr),
{
    match prev {
        Some(p) => p > 0 && curr / 2 >= p,
        None => false,
    }
}

/// Amplification correlates when at least one counter meets its threshold
/// alongside a conclusive delta: events or gauges per iteration doubled,
/// queued jobs appeared and grew, retries appeared, or retry sleep reached
/// 10 ms. Counter p95s are counts; the retry-sleep p95 is an order key.
pub fn amplification_correlates(
    delta: DeltaVerdict,
    prev_events_p95: Option<u64>,
    curr_events_p95: u64,
    prev_gauges_p95: Option<u64>,
    curr_gauges_p95: u64,
    prev_boson_p95: Option<u64>,
    curr_boson_p95: u64,
    prev_retry_p95: Option<u64>,
    curr_retry_p95: u64,
    curr_retry_sleep_p95_key: u64,
) -> (v: AmplificationVerdict)
    ensures
        v == amplification_spec(
            delta,
            prev_events_p95,
            curr_events_p95,
            prev_gauges_p95,
            curr_gauges_p95,
            prev_boson_p95,
            curr_boson_p95,
            prev_retry_p95,
            curr_retry_p95,
            curr_retry_sleep_p95_key,
        ),
{
    if delta != DeltaVerdict::Conclusive {
        return AmplificationVerdict::NotApplicable;
    }
    let events_ok = doubled(prev_events_p95, curr_events_p95);
    let gauges_ok = doubled(prev_gauges_p95, curr_gauges_p95);
    let boson_ok = curr_boson_p95 >= 1 && match prev_boson_p95 {
        Some(p) => curr_boson_p95 > p,
        None => true,
    };
    let retry_ok = curr_retry_p95 >= 1 && match prev_retry_p95 {
        Some(p) => p == 0,
        None => true,
    };
    let retry_sleep_ok = curr_retry_sleep_p95_key >= RETRY_SLEEP_THRESHOLD_KEY;
    if events_ok || gauges_ok || boson_ok || retry_ok || retry_sleep_ok {
        AmplificationVerdict::Correlated
    } else {
        AmplificationVerdict::InconclusiveMechanism
    }
}

/// The overall verdict text for a tier.
pub open spec fn verdict_label(delta: DeltaVerdict, amp: AmplificationVerdict) -> Seq<char> {
    match (delta, amp) {
        (DeltaVerdict::Baseline, _) => "baseline (evidence)"@,
        (DeltaVerdict::Inconclusive, _) => "inconclusive"@,
        (DeltaVerdict::Conclusive, AmplificationVerdict::InconclusiveMechanism) =>
            "conclusive latency, inconclusive mechanism"@,
        (DeltaVerdict::Conclusive, _) => "conclusive"@,
    }
}

pub fn overall_verdict_label(delta: DeltaVerdict, amp: AmplificationVerdict) -> (label:
    &'static str)
    ensures
        label@ == verdict_label(delta, amp),
{
    match (delta, amp) {
        (DeltaVerdict::Baseline, _) => "baseline (evidence)",
        (DeltaVerdict::Inconclusive, _) => "inconclusive",
        (DeltaVerdict::Conclusive, AmplificationVerdict::Correlated) => "conclusive",
        (DeltaVerdict::Conclusive, AmplificationVerdict::InconclusiveMechanism) => {
            "conclusive latency, inconclusive mechanism"
        },
        (DeltaVerdict::Conclusive, AmplificationVerdict::NotApplicable) => "conclusive",
    }
}

/// Law: the amplification verdict is "not applicable" exactly when the
/// latency delta is not conclusive.
pub proof fn lemma_amplification_only_for_conclusive(
    delta: DeltaVerdict,
    prev_events_p95: Option<u64>,
    curr_events_p95: u64,
    prev_gauges_p95: Option<u64>,
    curr_gauges_p95: u64,
    prev_boson_p95: Option<u64>,
    curr_boson_p95: u64,
    prev_retry_p95: Option<u64>,
    curr_retry_p95: u64,
    curr_retry_sleep_p95_key: u64,
)
    ensures
        (amplification_spec(
            delta,
            prev_events_p95,
            curr_events_p95,
            prev_gauges_p95,
            curr_gauges_p95,
            prev_boson_p95,
            curr_boson_p95,
            prev_retry_p95,
            curr_retry_p95,
            curr_retry_sleep_p95_key,
        ) == AmplificationVerdict::NotApplicable) <==> (delta != DeltaVerdict::Conclusive),
{
}

/// Law: with the previous tier fixed, larger current counters never turn a
/// correlated verdict into an unexplained one.
pub proof fn lemma_amplification_monotone(
    prev_events_p95: Option<u64>,
    prev_gauges_p95: Option<u64>,
    prev_boson_p95: Option<u64>,
    prev_retry_p95: Option<u64>,
    events: (u64, u64),
    gauges: (u64, u64),
    boson: (u64, u64),
    retry: (u64, u64),
    retry_sleep_key: (u64, u64),
)
    requires
        events.0 <= events.1,
        gauges.0 <= gauges.1,
        boson.0 <= boson.1,
        retry.0 <= retry.1,
        retry_sleep_key.0 <= retry_sleep_key.1,
        amplification_spec(
            DeltaVerdict::Conclusive,
            prev_events_p95,
            events.0,
            prev_gauges_p95,
            gauges.0,
            prev_boson_p95,
            boson.0,
            prev_retry_p95,
            retry.0,
            retry_sleep_key.0,
        ) == AmplificationVerdict::Correlated,
    ensures
        amplification_spec(
            DeltaVerdict::Conclusive,
            prev_events_p95,
            events.1,
            prev_gauges_p95,
            gauges.1,
            prev_boson_p95,
            boson.1,
            prev_retry_p95,
            retry.1,
            retry_sleep_key.1,
        ) == AmplificationVerdict::Correlated,
{
}

/// Law: the overall label is the mixed "conclusive latency, inconclusive
/// mechanism" exactly for a conclusive delta that no counter explains, and a
/// baseline tier is labelled as evidence whatever the counters say.
pub proof fn lemma_verdict_label_cases(delta: DeltaVerdict, amp: AmplificationVerdict)
    ensures
        (verdict_label(delta, amp) == "conclusive latency, inconclusive mechanism"@) <==> (delta
            == DeltaVerdict::Conclusive && amp == AmplificationVerdict::InconclusiveMechanism),
        delta == DeltaVerdict::Baseline ==> verdict_label(delta, amp) == "baseline (evidence)"@,
{
    reveal_strlit("conclusive latency, inconclusive mechanism");
    reveal_strlit("baseline (evidence)");
    reveal_strlit("inconclusive");
    reveal_strlit("conclusive");
    assert("conclusive latency, inconclusive mechanism"@.len() == 42);
    assert("baseline (evidence)"@.len() == 19);
    assert("inconclusive"@.len() == 12);
    assert("conclusive"@.len() == 10);
}


/// Law: with a conclusive delta, any one counter that meets its threshold
/// explains it, whatever the other counters say: events or gauges per
/// iteration at least doubled from a non-zero previous value, queued jobs
/// present and above the previous tier's (or with no previous tier), store
/// retries present where the previous tier had none (or with no previous
/// tier), or retry sleep at or above 10 ms.
pub proof fn lemma_each_counter_explains(
    prev_events_p95: Option<u64>,
    curr_events_p95: u64,
    prev_gauges_p95: Option<u64>,
    curr_gauges_p95: u64,
    prev_boson_p95: Option<u64>,
    curr_boson_p95: u64,
    prev_retry_p95: Option<u64>,
    curr_retry_p95: u64,
    curr_retry_sleep_p95_key: u64,
)
    ensures
        ({
            let v = amplification_spec(
                DeltaVerdict::Conclusive,
                prev_events_p95,
                curr_events_p95,
                prev_gauges_p95,
                curr_gauges_p95,
                prev_boson_p95,
                curr_boson_p95,
                prev_retry_p95,
                curr_retry_p95,
                curr_retry_sleep_p95_key,
            );
            &&& (prev_events_p95 matches Some(e) && e > 0 && curr_events_p95 >= 2 * e)
                ==> v == AmplificationVerdict::Correlated
            &&& (prev_gauges_p95 matches Some(g) && g > 0 && curr_gauges_p95 >= 2 * g)
                ==> v == AmplificationVerdict::Correlated
            &&& (curr_boson_p95 >= 1 && (prev_boson_p95 is None || (prev_boson_p95 matches Some(
                b) && curr_boson_p95 > b))) ==> v == AmplificationVerdict::Correlated
            &&& (curr_retry_p95 >= 1 && (prev_retry_p95 is None || prev_retry_p95 == Some(0u64)))
                ==> v == AmplificationVerdict::Correlated
            &&& curr_retry_sleep_p95_key >= 0x4024_0000_0000_0000u64 ==> v
                == AmplificationVerdict::Correlated
        }),
{
}

/// Law: a conclusive delta on a tier whose counters are just those of the
/// previous tier, with retry sleep under 10 ms, is left unexplained.
pub proof fn lemma_unchanged_counters_leave_delta_unexplained(
    events: u64,
    gauges: u64,
    boson: u64,
    retry: u64,
    curr_retry_sleep_p95_key: u64,
)
    requires
        curr_retry_sleep_p95_key < 0x4024_0000_0000_0000u64,
    ensures
        amplification_spec(
            DeltaVerdict::Conclusive,
            Some(events),
            events,
            Some(gauges),
            gauges,
            Some(boson),
            boson,
            Some(retry),
            retry,
            curr_retry_sleep_p95_key,
        ) == AmplificationVerdict::InconclusiveMechanism,
{
}

/// Law: a run judged on its own against a previous p95 but with no previous
/// counters (a single-tier report) is explained as soon as any retries,
/// any queued jobs or 10 ms of retry sleep show up, and is otherwise left
/// unexplained.
pub proof fn lemma_no_previous_counters(
    curr_events_p95: u64,
    curr_gauges_p95: u64,
    curr_boson_p95: u64,
    curr_retry_p95: u64,
    curr_retry_sleep_p95_key: u64,
)
    ensures
        (amplification_spec(
            DeltaVerdict::Conclusive,
            None,
            curr_events_p95,
            None,
            curr_gauges_p95,
            None,
            curr_boson_p95,
            None,
            curr_retry_p95,
            curr_retry_sleep_p95_key,
        ) == AmplificationVerdict::Correlated) <==> (curr_retry_p95 >= 1 || curr_boson_p95 >= 1
            || curr_retry_sleep_p95_key >= 0x4024_0000_0000_0000u64),
{
}

} // verus!
