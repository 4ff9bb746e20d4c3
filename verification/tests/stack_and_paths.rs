use counter_latency_bench::bench_run::{reported_increment_metrics, BenchOp, IncrementMetric};
use counter_latency_bench::engine::{
    clears_stale_stores, join_path, logical_paths, store_layout, store_root, BenchEngine,
    BenchStoreIsolation, StoreLayout, BENCH_NS,
};
use counter_latency_bench::experiments::load_ramp::http_load_url;
use counter_latency_bench::stack::tier0::router_groups;
use counter_latency_bench::stack::{
    actor_label, boot_plan, max_tier_for_features, BootStep, StackOptions, TierFeatures,
    TierUnavailable,
};

fn options(tier: u8) -> StackOptions {
    StackOptions {
        tier,
        engine: BenchEngine::Rocksdb,
        store_isolation: BenchStoreIsolation::Shared,
        user_id: "bench-user".to_string(),
        seed_value: 0,
        permission_cache: true,
        data_dir: std::path::PathBuf::from("profiling/counter-latency-bench/tiers"),
        boson_worker: false,
        chronon_disable_worker: false,
        chronon_no_jobs: false,
    }
}

fn all_linked() -> TierFeatures {
    TierFeatures {
        full: false,
        soliton: false,
        chronon: true,
        spectra_composite: true,
        photon: true,
        spectra: true,
        boson: true,
    }
}

#[test]
fn op_and_engine_names() {
    assert_eq!(BenchOp::Read.as_str(), "read");
    assert_eq!(BenchOp::Write.as_str(), "write");
    assert_eq!(BenchOp::Increment.as_str(), "increment");
    assert_eq!(BenchEngine::Rocksdb.label(), "rocksdb");
    assert_eq!(BenchEngine::Mem.label(), "mem");
    assert_eq!(BenchStoreIsolation::Shared.label(), "shared");
    assert_eq!(BenchStoreIsolation::PerLogical.label(), "per-logical");
    assert_eq!(BenchEngine::default(), BenchEngine::Rocksdb);
    assert_eq!(BenchStoreIsolation::default(), BenchStoreIsolation::Shared);
    assert_eq!(BENCH_NS, "counter_bench");
}

#[test]
fn this_build_runs_tier_zero_only() {
    assert_eq!(StackOptions::max_tier_available(), 0);
    assert_eq!(options(0).ensure_tier_available(), Ok(()));
    assert_eq!(
        options(3).ensure_tier_available(),
        Err(TierUnavailable { tier: 3, max_available: 0 })
    );
}

#[test]
fn max_tier_follows_feature_priority() {
    let none = TierFeatures::linked();
    assert_eq!(max_tier_for_features(none), 0);
    assert_eq!(max_tier_for_features(TierFeatures { boson: true, ..none }), 1);
    assert_eq!(max_tier_for_features(TierFeatures { spectra: true, boson: true, ..none }), 2);
    assert_eq!(max_tier_for_features(TierFeatures { photon: true, ..none }), 3);
    assert_eq!(max_tier_for_features(TierFeatures { spectra_composite: true, ..none }), 4);
    assert_eq!(max_tier_for_features(TierFeatures { chronon: true, photon: true, ..none }), 5);
    assert_eq!(max_tier_for_features(TierFeatures { soliton: true, ..none }), 6);
    assert_eq!(max_tier_for_features(TierFeatures { full: true, ..none }), 6);
}

#[test]
fn boot_plan_layers_in_order() {
    assert_eq!(boot_plan(0, false, all_linked()), vec![]);
    assert_eq!(boot_plan(0, true, all_linked()), vec![BootStep::DisableChrononWorker]);
    assert_eq!(boot_plan(2, false, all_linked()), vec![BootStep::Boson, BootStep::Spectra]);
    assert_eq!(
        boot_plan(6, true, all_linked()),
        vec![BootStep::Boson, BootStep::Spectra, BootStep::Photon, BootStep::SpectraComposite, BootStep::DisableChrononWorker, BootStep::Chronon]
    );
}

#[test]
fn boot_plan_stops_at_missing_stack() {
    let none = TierFeatures::linked();
    assert_eq!(boot_plan(3, true, none), vec![BootStep::MissingFeature { tier: 1 }]);
    let no_photon = TierFeatures { photon: false, ..all_linked() };
    assert_eq!(boot_plan(5, true, no_photon), vec![BootStep::Boson, BootStep::Spectra, BootStep::MissingFeature { tier: 3 }]);
    let no_chronon = TierFeatures { chronon: false, ..all_linked() };
    assert_eq!(
        boot_plan(5, false, no_chronon),
        vec![BootStep::Boson, BootStep::Spectra, BootStep::Photon, BootStep::SpectraComposite, BootStep::MissingFeature { tier: 5 }]
    );
}

#[test]
fn actor_labels() {
    assert_eq!(actor_label("bench-user"), "User(bench-user)");
    assert_eq!(counter_latency_bench::stack::tier0::actor_label(""), "User()");
}

#[test]
fn router_groups_are_the_subsystem_stores() {
    let expected: &[&[&str]] = &[&["default"], &["boson"], &["chronon"], &["photon"]];
    assert_eq!(router_groups(), expected);
}

#[test]
fn logical_paths_under_data_dir() {
    let paths = logical_paths("data");
    assert_eq!(
        paths,
        vec![
            ("default".to_string(), "data/surreal/default".to_string()),
            ("boson".to_string(), "data/surreal/boson".to_string()),
            ("chronon".to_string(), "data/surreal/chronon".to_string()),
            ("photon".to_string(), "data/surreal/photon".to_string()),
        ]
    );
    assert_eq!(logical_paths("data/")[1].1, "data/surreal/boson");
    assert_eq!(logical_paths("")[0].1, "surreal/default");
}

#[test]
fn join_path_matches_std_path_join() {
    for (base, rel) in [("a", "b/c"), ("a/", "b"), ("", "x"), ("/", "y"), ("a//", "z")] {
        let expected = std::path::Path::new(base).join(rel);
        assert_eq!(join_path(base, rel), expected.to_string_lossy());
    }
}

#[test]
fn store_layouts() {
    assert!(matches!(
        store_layout(BenchEngine::Mem, BenchStoreIsolation::Shared, "d"),
        StoreLayout::SharedInMemory
    ));
    match store_layout(BenchEngine::Rocksdb, BenchStoreIsolation::Shared, "d") {
        StoreLayout::SharedOnDisk { path } => assert_eq!(path, "d/surreal/bench"),
        _ => panic!("expected a shared on-disk store"),
    }
    for engine in [BenchEngine::Mem, BenchEngine::Rocksdb] {
        match store_layout(engine, BenchStoreIsolation::PerLogical, "d") {
            StoreLayout::PerLogical { stores } => {
                assert_eq!(stores.len(), 4);
                assert_eq!(stores[0], ("default".to_string(), "d/surreal/default".to_string()));
            }
            _ => panic!("expected per-logical stores"),
        }
    }
    assert_eq!(store_root("d"), "d/surreal");
    assert!(clears_stale_stores(BenchEngine::Rocksdb));
    assert!(!clears_stale_stores(BenchEngine::Mem));
}

#[test]
fn http_load_urls() {
    assert_eq!(
        http_load_url("http://localhost:3000", "/api/increment_counter"),
        "http://localhost:3000/api/increment_counter"
    );
    assert_eq!(http_load_url("http://h:1//", "  api/x \n"), "http://h:1/api/x");
    assert_eq!(http_load_url("http://h", ""), "http://h/");
}

#[test]
fn increment_metrics_by_tier() {
    let base = vec![IncrementMetric::UserCounterGet, IncrementMetric::CounterGet, IncrementMetric::UserCounterCommit, IncrementMetric::CounterCommit, IncrementMetric::IncrementTotal];
    let mut t0 = base.clone();
    t0.extend([IncrementMetric::DbRetryCount, IncrementMetric::DbRetryTotalSleep]);
    assert_eq!(reported_increment_metrics(0), t0);
    let mut t1 = base.clone();
    t1.extend([IncrementMetric::BosonQueued, IncrementMetric::DbRetryCount, IncrementMetric::DbRetryTotalSleep]);
    assert_eq!(reported_increment_metrics(1), t1);
    let mut t2 = base.clone();
    t2.extend([IncrementMetric::SpectraEventsPerIter, IncrementMetric::SpectraGaugesPerIter, IncrementMetric::BosonQueued, IncrementMetric::DbRetryCount, IncrementMetric::DbRetryTotalSleep]);
    assert_eq!(reported_increment_metrics(4), t2);
    assert_eq!(IncrementMetric::IncrementTotal.label(), "increment_total_ms");
    assert_eq!(IncrementMetric::DbRetryTotalSleep.label(), "db_retry_total_sleep_ms");
}

#[test]
fn tier_unavailable_message_text() {
    let e = TierUnavailable { tier: 3, max_available: 0 };
    assert_eq!(
        e.message(),
        "tier 3 requires Cargo features (max available: 0). Use --features tier-full for the full ladder."
    );
    let e = TierUnavailable { tier: 255, max_available: 42 };
    assert_eq!(
        e.message(),
        "tier 255 requires Cargo features (max available: 42). Use --features tier-full for the full ladder."
    );
}
