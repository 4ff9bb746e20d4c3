use counter_latency_bench::engine::BenchStoreIsolation;
use counter_latency_bench::experiments::load_bell::{summarize_buckets, BellSample, BellStats};
use counter_latency_bench::experiments::volume_ramp::{contention_runs, sweep_rows};
use counter_latency_bench::gates::{AmplificationVerdict, DeltaVerdict};
use counter_latency_bench::ladder::{
    single_tier_verdict, LadderState, LadderStop, TierBaseline, TierMeasurement, TierVerdict,
};
use counter_latency_bench::rootcause_ladder::{rootcause_variants, variant_plan};
use counter_latency_bench::seed::seed_batches;
use counter_latency_bench::snapshot::StackSnapshot;

fn sample(latency: u64, ok: bool, overflow: bool, bucket: u64) -> BellSample {
    BellSample { latency_key: latency, ok, overflow, bucket }
}

fn measured(p95: u64, events: u64, conclusive: bool, breached: bool) -> TierMeasurement {
    TierMeasurement {
        increment_p95_key: p95,
        events_p95: events,
        gauges_p95: 0,
        boson_p95: 0,
        retry_p95: 0,
        retry_sleep_p95_key: 0,
        delta_conclusive: conclusive,
        budget_breached: breached,
    }
}

#[test]
fn bell_summary_accounts_requests() {
    let samples = vec![
        sample(30, true, false, 0),
        sample(10, true, false, 0),
        sample(0, false, true, 0),
        sample(50, false, false, 1),
        sample(20, true, false, 2),
        sample(0, false, true, 2),
    ];
    let r = summarize_buckets(&samples, 150, 60);
    assert_eq!(r.offered_total, 6);
    assert_eq!(r.overflow_total, 2);
    assert_eq!(r.completed_total, 4);
    assert_eq!(r.error_total, 1);
    assert_eq!(r.overall, BellStats { count: 3, min: 10, p50: 20, p90: 30, p99: 30, max: 30 });
    assert_eq!(r.per_minute.len(), 3);
    let b0 = r.per_minute[0];
    assert_eq!((b0.minute, b0.offered, b0.completed, b0.overflow, b0.errors), (0, 3, 2, 1, 0));
    assert_eq!(b0.latency.count, 2);
    assert_eq!((b0.latency.min, b0.latency.max), (10, 30));
    let b1 = r.per_minute[1];
    assert_eq!((b1.offered, b1.completed, b1.overflow, b1.errors), (1, 0, 0, 1));
    assert_eq!(b1.latency, BellStats { count: 0, min: 0, p50: 0, p90: 0, p99: 0, max: 0 });
    assert_eq!(r.per_minute[2].offered, 2);
    assert_eq!(r.offered_total, r.completed_total + r.overflow_total);
    assert_eq!(r.completed_total, r.overall.count as u64 + r.error_total);
    let window_total: u64 = r.per_minute.iter().map(|b| b.offered).sum();
    assert_eq!(window_total, r.offered_total);
    for b in &r.per_minute {
        assert_eq!(b.offered, b.completed + b.errors + b.overflow);
        assert_eq!(b.completed, b.latency.count as u64);
    }
}

#[test]
fn bell_windows_cover_the_duration() {
    assert_eq!(summarize_buckets(&Vec::new(), 3600, 60).per_minute.len(), 60);
    assert_eq!(summarize_buckets(&Vec::new(), 3601, 60).per_minute.len(), 61);
    assert_eq!(summarize_buckets(&Vec::new(), 0, 60).per_minute.len(), 0);
    let late = vec![sample(5, true, false, 9)];
    let r = summarize_buckets(&late, 120, 60);
    assert_eq!(r.per_minute.len(), 2);
    assert_eq!(r.offered_total, 1);
    assert_eq!(r.per_minute[0].offered + r.per_minute[1].offered, 0);
}

#[test]
fn ladder_runs_until_exhausted() {
    let mut ladder = LadderState::new(2);
    assert_eq!(ladder.current_tier(), Some(0));
    let v0 = ladder.record(measured(100, 1, true, false));
    assert_eq!(v0.delta, DeltaVerdict::Baseline);
    assert_eq!(v0.amplification, AmplificationVerdict::NotApplicable);
    assert_eq!(v0.prev_tier, None);
    assert_eq!(ladder.current_tier(), Some(1));
    let v1 = ladder.record(measured(110, 1, false, false));
    assert_eq!(v1.delta, DeltaVerdict::Inconclusive);
    assert_eq!(v1.prev_tier, Some(0));
    let v2 = ladder.record(measured(900, 5, true, false));
    assert_eq!(v2.delta, DeltaVerdict::Conclusive);
    assert_eq!(v2.amplification, AmplificationVerdict::Correlated);
    assert_eq!(ladder.stop, Some(LadderStop::ExhaustedTiers));
    assert_eq!(ladder.stopped_at, 2);
    assert_eq!(ladder.current_tier(), None);
    assert_eq!(
        ladder.baseline,
        Some(TierBaseline { increment_p95_key: 900, events_p95: 5, gauges_p95: 0, boson_p95: 0, retry_p95: 0 })
    );
}

#[test]
fn ladder_stops_on_budget_breach() {
    let mut ladder = LadderState::new(6);
    ladder.record(measured(100, 0, false, false));
    let v = ladder.record(measured(5000, 0, true, true));
    assert_eq!(v.tier, 1);
    assert_eq!(ladder.stop, Some(LadderStop::BudgetBreach));
    assert_eq!(ladder.stopped_at, 1);
    assert_eq!(ladder.current_tier(), None);
}

#[test]
fn ladder_stops_on_unexplained_delta() {
    let mut ladder = LadderState::new(6);
    ladder.record(measured(100, 4, false, false));
    let v = ladder.record(measured(900, 7, true, false));
    assert_eq!(v.delta, DeltaVerdict::Conclusive);
    assert_eq!(v.amplification, AmplificationVerdict::InconclusiveMechanism);
    assert_eq!(ladder.stop, Some(LadderStop::UnexplainedDelta { tier: 1 }));
    assert_eq!(ladder.baseline.map(|b| b.increment_p95_key), Some(100));
}

#[test]
fn iteration_delta_saturates() {
    let full = StackSnapshot {
        boson_queued: 3,
        spectra_events: 10,
        spectra_gauges: 4,
        spectra_counters: 2,
        db_retry_count: 1,
        db_retry_total_sleep_ms_key: 0,
    };
    let d = StackSnapshot::iteration_delta(full, 7, 9, 1);
    assert_eq!(d.spectra_events, 3);
    assert_eq!(d.spectra_gauges, 0);
    assert_eq!(d.db_retry_count, 0);
    assert_eq!(d.boson_queued, 3);
    assert_eq!(d.spectra_counters, 2);
    assert_eq!(StackSnapshot::default().spectra_events, 0);
}

#[test]
fn seed_batches_cover_rows() {
    assert_eq!(seed_batches(0), vec![]);
    assert_eq!(seed_batches(500), vec![(0, 500)]);
    assert_eq!(seed_batches(1201), vec![(0, 500), (500, 1000), (1000, 1201)]);
}

#[test]
fn rootcause_variant_table() {
    let variants = rootcause_variants();
    let names: Vec<&str> = variants.iter().map(|(n, _)| n.as_str()).collect();
    assert_eq!(
        names,
        vec![
            "A_baseline",
            "B_surreal_off",
            "C_noop",
            "D_request_buffer",
            "E_counter_aggregate",
            "F_batch_txn",
            "G_dedicated_store",
            "G_per_store",
            "H_all_levers",
            "H_all_levers_per_store",
        ]
    );
    assert_eq!(variants[2].1, vec![
        ("SPECTRA_PERSIST".to_string(), "0".to_string()),
        ("SPECTRA_SINK".to_string(), "noop".to_string()),
    ]);
}

#[test]
fn rootcause_variant_plans() {
    let variants = rootcause_variants();
    let dedicated = variant_plan(&variants[6].0, &variants[6].1, "runs");
    assert_eq!(dedicated.data_dir, "runs/G_dedicated_store");
    assert_eq!(dedicated.tier, 4);
    assert_eq!(dedicated.clear.len(), 8);
    assert_eq!(
        dedicated.set.last(),
        Some(&(
            "SPECTRA_DEDICATED_STORE_PATH".to_string(),
            "runs/G_dedicated_store/surreal/spectra".to_string()
        ))
    );
    let per_store = variant_plan(&variants[7].0, &variants[7].1, "runs");
    assert_eq!(
        per_store.set.last(),
        Some(&(
            "SPECTRA_STORE_BASE_PATH".to_string(),
            "runs/G_per_store/surreal/spectra".to_string()
        ))
    );
    let baseline = variant_plan(&variants[0].0, &variants[0].1, "runs");
    assert_eq!(baseline.set, variants[0].1);
}


#[test]
fn contention_plan_order() {
    let runs = contention_runs();
    let got: Vec<(BenchStoreIsolation, &str, u8, &str, bool, bool)> = runs
        .iter()
        .map(|r| (r.isolation, r.isolation_label, r.tier, r.label, r.chronon_disable_worker, r.chronon_no_jobs))
        .collect();
    assert_eq!(
        got,
        vec![
            (BenchStoreIsolation::Shared, "isolation=shared", 0, "jobs_off", true, true),
            (BenchStoreIsolation::Shared, "isolation=shared", 5, "jobs_on", false, false),
            (BenchStoreIsolation::PerLogical, "isolation=per-logical", 0, "jobs_off", true, true),
            (BenchStoreIsolation::PerLogical, "isolation=per-logical", 5, "jobs_on", false, false),
        ]
    );
}

#[test]
fn sweep_rows_first_or_default() {
    assert_eq!(sweep_rows(&vec![250, 9], 10_000), 250);
    assert_eq!(sweep_rows(&Vec::new(), 10_000), 10_000);
}

#[test]
fn single_tier_verdict_without_previous_is_baseline() {
    assert_eq!(
        single_tier_verdict(3, None),
        TierVerdict {
            tier: 3,
            prev_tier: None,
            delta: DeltaVerdict::Baseline,
            amplification: AmplificationVerdict::NotApplicable,
        }
    );
}

#[test]
fn single_tier_verdict_against_previous_tier() {
    assert_eq!(
        single_tier_verdict(4, Some(true)),
        TierVerdict {
            tier: 4,
            prev_tier: Some(3),
            delta: DeltaVerdict::Conclusive,
            amplification: AmplificationVerdict::NotApplicable,
        }
    );
    assert_eq!(
        single_tier_verdict(0, Some(false)),
        TierVerdict {
            tier: 0,
            prev_tier: Some(0),
            delta: DeltaVerdict::Inconclusive,
            amplification: AmplificationVerdict::NotApplicable,
        }
    );
}
