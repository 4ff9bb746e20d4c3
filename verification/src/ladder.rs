//! The tier ladder: boot tier after tier, compare each with the previous one,
//! and stop at a budget breach or at a latency jump no counter explains.
use vstd::prelude::*;

use crate::gates::{
    amplification_correlates, amplification_spec, classify_delta, delta_verdict,
    AmplificationVerdict, DeltaVerdict,
};

verus! {

/// What the previous tier measured: its median increment p95 (an order key)
/// and the p95 of its per-iteration counters.
#[derive(Debug, Clone, Copy, PartialEq, Eq, Structural)]
pub struct TierBaseline {
    pub increment_p95_key: u64,
    pub events_p95: u64,
    pub gauges_p95: u64,
    pub boson_p95: u64,
    pub retry_p95: u64,
}

/// What one tier measured, with the two judgements on its latency that need
/// floating point: whether its delta against the previous tier is conclusive
/// (ignored for the first tier) and whether it breached the budget.
#[derive(Debug, Clone, Copy, PartialEq, Eq, Structural)]
pub struct TierMeasurement {
    pub increment_p95_key: u64,
    pub events_p95: u64,
    pub gauges_p95: u64,
    pub boson_p95: u64,
    pub retry_p95: u64,
    pub retry_sleep_p95_key: u64,
    pub delta_conclusive: bool,
    pub budget_breached: bool,
}

/// Why the ladder stopped.
#[derive(Debug, Clone, Copy, PartialEq, Eq, Structural)]
pub enum LadderStop {
    /// Every tier up to the highest was run.
    ExhaustedTiers,
    /// The tier's median increment p95 breached the budget.
    BudgetBreach,
    /// The tier's delta was conclusive but no counter explained it.
    UnexplainedDelta { tier: u8 },
}

/// The verdicts on one tier.
#[derive(Debug, Clone, Copy, PartialEq, Eq, Structural)]
pub struct TierVerdict {
    pub tier: u8,
    pub prev_tier: Option<u8>,
    pub delta: DeltaVerdict,
    pub amplification: AmplificationVerdict,
}

/// Progress through the ladder.
pub struct LadderState {
    pub max_tier: u8,
    /// The tier to run next, while the ladder has not stopped.
    pub next_tier: u8,
    /// The last tier run.
    pub stopped_at: u8,
    /// What the last tier that passed measured.
    pub baseline: Option<TierBaseline>,
    pub stop: Option<LadderStop>,
}

pub open spec fn baseline_of(m: TierMeasurement) -> TierBaseline {
    TierBaseline {
        increment_p95_key: m.increment_p95_key,
        events_p95: m.events_p95,
        gauges_p95: m.gauges_p95,
        boson_p95: m.boson_p95,
        retry_p95: m.retry_p95,
    }
}

/// The verdicts on a tier measured against the previous tier's baseline.
pub open spec fn tier_verdict(tier: u8, prev: Option<TierBaseline>, m: TierMeasurement) -> TierVerdict {
    let delta = delta_verdict(
        match prev {
            Some(_) => Some(m.delta_conclusive),
            None => None,
        },
    );
    TierVerdict {
        tier,
        prev_tier: match prev {
            Some(_) => Some(if tier > 0 { (tier - 1) as u8 } else { 0 }),
            None => None,
        },
        delta,
        amplification: amplification_spec(
            delta,
            match prev {
                Some(p) => Some(p.events_p95),
                None => None,
            },
            m.events_p95,
            match prev {
                Some(p) => Some(p.gauges_p95),
                None => None,
            },
            m.gauges_p95,
            match prev {
                Some(p) => Some(p.boson_p95),
                None => None,
            },
            m.boson_p95,
            match prev {
                Some(p) => Some(p.retry_p95),
                None => None,
            },
            m.retry_p95,
            m.retry_sleep_p95_key,
        ),
    }
}

impl LadderState {
    /// The ladder is consistent: tiers stay within `0..=max_tier`, and
    /// while it runs, the baseline is present exactly after the first tier.
    pub open spec fn wf(&self) -> bool {
        &&& self.next_tier <= self.max_tier
        &&& self.stopped_at <= self.max_tier
        &&& self.stop is None ==> (self.baseline is None <==> self.next_tier == 0)
    }

    /// A ladder over tiers `0..=max_tier` that has run nothing yet.
    pub fn new(max_tier: u8) -> (s: Self)
        ensures
            s.wf(),
            s.max_tier == max_tier,
            s.next_tier == 0,
            s.stopped_at == 0,
            s.baseline is None,
            s.stop is None,
    {
        LadderState { max_tier, next_tier: 0, stopped_at: 0, baseline: None, stop: None }
    }

    /// The tier to run next, or `None` once the ladder has stopped.
    pub fn current_tier(&self) -> (t: Option<u8>)
        ensures
            t == (if self.stop is None { Some(self.next_tier) } else { None::<u8> }),
    {
        if self.stop.is_none() {
            Some(self.next_tier)
        } else {
            None
        }
    }

    /// Records the measurement of the current tier and decides: stop at a
    /// budget breach, stop at a conclusive delta that no counter explains,
    /// stop after the highest tier, or move on with this tier as baseline.
    pub fn record(&mut self, m: TierMeasurement) -> (v: TierVerdict)
        requires
            old(self).wf(),
            old(self).stop is None,
        ensures
            final(self).wf(),
            final(self).max_tier == old(self).max_tier,
            v == tier_verdict(old(self).next_tier, old(self).baseline, m),
            final(self).stopped_at == old(self).next_tier,
            m.budget_breached ==> final(self).stop == Some(LadderStop::BudgetBreach)
                && final(self).baseline == old(self).baseline,
            !m.budget_breached && v.delta == DeltaVerdict::Conclusive && v.amplification
                == AmplificationVerdict::InconclusiveMechanism ==> final(self).stop == Some(
                LadderStop::UnexplainedDelta { tier: old(self).next_tier },
            ) && final(self).baseline == old(self).baseline,
            !m.budget_breached && !(v.delta == DeltaVerdict::Conclusive && v.amplification
                == AmplificationVerdict::InconclusiveMechanism) ==> {
                &&& final(self).baseline == Some(baseline_of(m))
                &&& old(self).next_tier == old(self).max_tier ==> final(self).stop == Some(
                    LadderStop::ExhaustedTiers,
                )
                &&& old(self).next_tier < old(self).max_tier ==> final(self).stop is None
                    && final(self).next_tier == old(self).next_tier + 1
            },
    {
        let tier = self.next_tier;
        let prev = self.baseline;
        let delta = classify_delta(
            match prev {
                Some(_) => Some(m.delta_conclusive),
                None => None,
            },
        );
        let amplification = amplification_correlates(
            delta,
            match prev {
                Some(p) => Some(p.events_p95),
                None => None,
            },
            m.events_p95,
            match prev {
                Some(p) => Some(p.gauges_p95),
                None => None,
            },
            m.gauges_p95,
            match prev {
                Some(p) => Some(p.boson_p95),
                None => None,
            },
            m.boson_p95,
            match prev {
                Some(p) => Some(p.retry_p95),
                None => None,
            },
            m.retry_p95,
            m.retry_sleep_p95_key,
        );
        let prev_tier = match prev {
            Some(_) => Some(tier.saturating_sub(1)),
            None => None,
        };
        self.stopped_at = tier;
        if m.budget_breached {
            self.stop = Some(LadderStop::BudgetBreach);
        } else if delta == DeltaVerdict::Conclusive && amplification
            == AmplificationVerdict::InconclusiveMechanism {
            self.stop = Some(LadderStop::UnexplainedDelta { tier });
        } else {
            self.baseline = Some(
                TierBaseline {
                    increment_p95_key: m.increment_p95_key,
                    events_p95: m.events_p95,
                    gauges_p95: m.gauges_p95,
                    boson_p95: m.boson_p95,
                    retry_p95: m.retry_p95,
                },
            );
            if tier == self.max_tier {
                self.stop = Some(LadderStop::ExhaustedTiers);
            } else {
                self.next_tier = tier + 1;
            }
        }
        TierVerdict { tier, prev_tier, delta, amplification }
    }
}

/// The verdicts on a tier run on its own, which judges no amplification:
/// `prev_conclusive` is `None` without a previous tier's p95, and otherwise
/// whether the delta against it is conclusive.
pub open spec fn single_tier_verdict_spec(tier: u8, prev_conclusive: Option<bool>) -> TierVerdict {
    TierVerdict {
        tier,
        prev_tier: match prev_conclusive {
            Some(_) => Some(if tier > 0 { (tier - 1) as u8 } else { 0 }),
            None => None,
        },
        delta: delta_verdict(prev_conclusive),
        amplification: AmplificationVerdict::NotApplicable,
    }
}

pub fn single_tier_verdict(tier: u8, prev_conclusive: Option<bool>) -> (v: TierVerdict)
    ensures
        v == single_tier_verdict_spec(tier, prev_conclusive),
{
    let prev_tier = match prev_conclusive {
        Some(_) => Some(tier.saturating_sub(1)),
        None => None,
    };
    TierVerdict {
        tier,
        prev_tier,
        delta: classify_delta(prev_conclusive),
        amplification: AmplificationVerdict::NotApplicable,
    }
}

/// Law: the first tier of a ladder is its baseline; no amplification is
/// judged against it, and it reports no previous tier.
pub proof fn lemma_first_tier_is_baseline(m: TierMeasurement)
    ensures
        tier_verdict(0, None, m).delta == DeltaVerdict::Baseline,
        tier_verdict(0, None, m).amplification == AmplificationVerdict::NotApplicable,
        tier_verdict(0, None, m).prev_tier is None,
{
}


/// Law: a tier's counters are each judged against the same counter of the
/// baseline. Against a baseline, with a conclusive delta, the tier's verdict
/// is correlated as soon as its events or gauges per iteration at least
/// doubled a non-zero baseline value, its queued jobs are present and above
/// the baseline's, its retries appeared where the baseline had none, or its
/// retry sleep reached 10 ms; and it is left unexplained when every counter
/// equals the baseline's and retry sleep stayed under 10 ms.
pub proof fn lemma_counters_judged_against_baseline(tier: u8, b: TierBaseline, m: TierMeasurement)
    requires
        m.delta_conclusive,
    ensures
        ({
            let v = tier_verdict(tier, Some(b), m);
            &&& v.delta == DeltaVerdict::Conclusive
            &&& (b.events_p95 > 0 && m.events_p95 >= 2 * b.events_p95) ==> v.amplification
                == AmplificationVerdict::Correlated
            &&& (b.gauges_p95 > 0 && m.gauges_p95 >= 2 * b.gauges_p95) ==> v.amplification
                == AmplificationVerdict::Correlated
            &&& (m.boson_p95 >= 1 && m.boson_p95 > b.boson_p95) ==> v.amplification
                == AmplificationVerdict::Correlated
            &&& (m.retry_p95 >= 1 && b.retry_p95 == 0) ==> v.amplification
                == AmplificationVerdict::Correlated
            &&& m.retry_sleep_p95_key >= 0x4024_0000_0000_0000u64 ==> v.amplification
                == AmplificationVerdict::Correlated
            &&& (m.events_p95 == b.events_p95 && m.gauges_p95 == b.gauges_p95 && m.boson_p95
                == b.boson_p95 && m.retry_p95 == b.retry_p95 && m.retry_sleep_p95_key
                < 0x4024_0000_0000_0000u64) ==> v.amplification
                == AmplificationVerdict::InconclusiveMechanism
        }),
{
}

/// Law: a tier whose delta against the baseline is not conclusive is never
/// judged on its counters, whatever they are.
pub proof fn lemma_inconclusive_delta_not_judged(tier: u8, b: TierBaseline, m: TierMeasurement)
    requires
        !m.delta_conclusive,
    ensures
        tier_verdict(tier, Some(b), m).delta == DeltaVerdict::Inconclusive,
        tier_verdict(tier, Some(b), m).amplification == AmplificationVerdict::NotApplicable,
        tier_verdict(tier, Some(b), m).prev_tier == Some(if tier > 0 { (tier - 1) as u8 } else { 0u8 }),
{
}

} // verus!
