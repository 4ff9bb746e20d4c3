use counter_latency_bench::experiments::{parse_usize_list, percentile};
use counter_latency_bench::gates::{
    amplification_correlates, classify_delta, overall_verdict_label, AmplificationVerdict,
    DeltaVerdict, RETRY_SLEEP_THRESHOLD_KEY,
};
use counter_latency_bench::stats::{MetricReport, Middle, Stats};

fn key(ms: f64) -> u64 {
    ms.to_bits()
}

#[test]
fn summarize_picks_order_statistics() {
    let s = Stats::summarize(vec![5, 1, 3, 2, 4]);
    assert_eq!(s, Stats { min: 1, p50: 3, p95: 5, max: 5, count: 5 });
}

#[test]
fn summarize_empty_is_all_zero() {
    assert_eq!(Stats::summarize(Vec::new()), Stats::empty());
    assert_eq!(Stats::empty(), Stats { min: 0, p50: 0, p95: 0, max: 0, count: 0 });
}

#[test]
fn summarize_twenty_samples_uses_ceiling_rank() {
    let samples: Vec<u64> = (1..=20).rev().collect();
    let s = Stats::summarize(samples);
    // p50: ceil(20 * 0.5) = 10 -> 10th smallest; p95: ceil(19.0) = 19 -> 19th smallest.
    assert_eq!(s.p50, 10);
    assert_eq!(s.p95, 19);
    assert_eq!(s.min, 1);
    assert_eq!(s.max, 20);
}

#[test]
fn summarize_float_keys_follow_value_order() {
    let values = [12.5f64, 0.25, 3.0, 250.0, 7.75];
    let s = Stats::summarize(values.iter().map(|v| key(*v)).collect());
    assert_eq!(f64::from_bits(s.min), 0.25);
    assert_eq!(f64::from_bits(s.p50), 7.75);
    assert_eq!(f64::from_bits(s.p95), 250.0);
    assert_eq!(f64::from_bits(s.max), 250.0);
}

#[test]
fn summarize_is_order_independent() {
    let a = Stats::summarize(vec![9, 4, 4, 7, 1, 8]);
    let b = Stats::summarize(vec![1, 4, 7, 8, 9, 4]);
    assert_eq!(a, b);
    assert!(a.min <= a.p50 && a.p50 <= a.p95 && a.p95 <= a.max);
}

#[test]
fn median_middles() {
    assert_eq!(Stats::median(&[]), Middle::Empty);
    assert_eq!(Stats::median(&[7, 3, 5]), Middle::Single(5));
    assert_eq!(Stats::median(&[4, 1, 3, 2]), Middle::Pair(2, 3));
}

#[test]
fn percentile_of_unsorted_samples() {
    let samples: Vec<u64> = vec![100, 10, 90, 20, 80, 30, 70, 40, 60, 50];
    assert_eq!(percentile(&samples, 900), 90);
    assert_eq!(percentile(&samples, 990), 100);
    assert_eq!(percentile(&samples, 0), 10);
    assert_eq!(percentile(&samples, 5000), 100);
    assert_eq!(percentile(&[], 500), 0);
}

#[test]
fn metric_report_keeps_labels_in_order() {
    let mut report = MetricReport::new();
    report.push("a".to_string(), vec![3, 1, 2]);
    report.push("b".to_string(), Vec::new());
    assert_eq!(report.labels.len(), 2);
    assert_eq!(report.labels[0].0, "a");
    assert_eq!(report.labels[0].1, Stats { min: 1, p50: 2, p95: 3, max: 3, count: 3 });
    assert_eq!(report.labels[1].1, Stats::empty());
    assert!(MetricReport::default().labels.is_empty());
}

#[test]
fn parse_default_sweeps() {
    assert_eq!(parse_usize_list("0,1000,10000,100000"), vec![0, 1000, 10000, 100000]);
    assert_eq!(parse_usize_list("1,2,4,8,16,32"), vec![1, 2, 4, 8, 16, 32]);
}

#[test]
fn parse_skips_pieces_that_are_not_numbers() {
    assert_eq!(
        parse_usize_list(" 1, 2 ,x,,+3, -4,\t5\n,99999999999999999999999,+,7a"),
        vec![1, 2, 3, 5]
    );
    assert_eq!(parse_usize_list(""), Vec::<usize>::new());
    assert_eq!(parse_usize_list("\u{3000}42\u{a0}"), vec![42]);
    assert_eq!(parse_usize_list("007"), vec![7]);
}

#[test]
fn parse_accepts_usize_max_and_rejects_beyond() {
    let max = usize::MAX.to_string();
    assert_eq!(parse_usize_list(&max), vec![usize::MAX]);
    let beyond = format!("{}0", max);
    assert_eq!(parse_usize_list(&beyond), Vec::<usize>::new());
}

#[test]
fn retry_sleep_threshold_is_ten_ms() {
    assert_eq!(RETRY_SLEEP_THRESHOLD_KEY, key(10.0));
}

#[test]
fn classify_delta_cases() {
    assert_eq!(classify_delta(None), DeltaVerdict::Baseline);
    assert_eq!(classify_delta(Some(true)), DeltaVerdict::Conclusive);
    assert_eq!(classify_delta(Some(false)), DeltaVerdict::Inconclusive);
}

#[test]
fn amplification_needs_conclusive_delta() {
    for d in [DeltaVerdict::Baseline, DeltaVerdict::Inconclusive] {
        let v = amplification_correlates(d, Some(1), 100, Some(1), 100, None, 5, None, 5, key(50.0));
        assert_eq!(v, AmplificationVerdict::NotApplicable);
    }
}

#[test]
fn amplification_thresholds() {
    let c = DeltaVerdict::Conclusive;
    let none = amplification_correlates(c, Some(4), 7, Some(4), 7, Some(2), 2, Some(1), 3, key(9.9));
    assert_eq!(none, AmplificationVerdict::InconclusiveMechanism);
    let events = amplification_correlates(c, Some(4), 8, Some(4), 7, Some(2), 2, Some(1), 3, 0);
    assert_eq!(events, AmplificationVerdict::Correlated);
    let gauges = amplification_correlates(c, Some(0), 9, Some(3), 6, Some(2), 2, Some(1), 3, 0);
    assert_eq!(gauges, AmplificationVerdict::Correlated);
    let boson_first = amplification_correlates(c, None, 0, None, 0, None, 1, Some(1), 0, 0);
    assert_eq!(boson_first, AmplificationVerdict::Correlated);
    let boson_grew = amplification_correlates(c, None, 0, None, 0, Some(2), 3, Some(1), 0, 0);
    assert_eq!(boson_grew, AmplificationVerdict::Correlated);
    let retries = amplification_correlates(c, None, 0, None, 0, Some(2), 2, Some(0), 1, 0);
    assert_eq!(retries, AmplificationVerdict::Correlated);
    let sleep = amplification_correlates(c, None, 0, None, 0, Some(2), 2, Some(1), 0, key(10.0));
    assert_eq!(sleep, AmplificationVerdict::Correlated);
    let zero_prev = amplification_correlates(c, Some(0), 0, Some(0), 0, Some(0), 0, Some(0), 0, 0);
    assert_eq!(zero_prev, AmplificationVerdict::InconclusiveMechanism);
}

#[test]
fn verdict_labels() {
    for a in [AmplificationVerdict::NotApplicable, AmplificationVerdict::Correlated, AmplificationVerdict::InconclusiveMechanism] {
        assert_eq!(overall_verdict_label(DeltaVerdict::Baseline, a), "baseline (evidence)");
        assert_eq!(overall_verdict_label(DeltaVerdict::Inconclusive, a), "inconclusive");
    }
    assert_eq!(overall_verdict_label(DeltaVerdict::Conclusive, AmplificationVerdict::Correlated), "conclusive");
    assert_eq!(overall_verdict_label(DeltaVerdict::Conclusive, AmplificationVerdict::NotApplicable), "conclusive");
    assert_eq!(
        overall_verdict_label(DeltaVerdict::Conclusive, AmplificationVerdict::InconclusiveMechanism),
        "conclusive latency, inconclusive mechanism"
    );
}

#[test]
fn amplification_stays_correlated_as_counters_grow() {
    let c = DeltaVerdict::Conclusive;
    let low = amplification_correlates(c, Some(3), 6, Some(3), 1, Some(4), 1, Some(2), 0, 0);
    let high = amplification_correlates(c, Some(3), 60, Some(3), 9, Some(4), 9, Some(2), 3, key(12.0));
    assert_eq!(low, AmplificationVerdict::Correlated);
    assert_eq!(high, AmplificationVerdict::Correlated);
}

#[test]
fn percentile_extremes_and_middle() {
    let samples = vec![8u64, 2, 6, 4];
    let s = Stats::summarize(samples.clone());
    assert_eq!(percentile(&samples, 0), s.min);
    assert_eq!(percentile(&samples, 1000), s.max);
    assert!(percentile(&samples, 500) <= percentile(&samples, 950));
    match Stats::median(&samples) {
        Middle::Pair(a, b) => assert!(s.min <= a && a <= b && b <= s.max),
        other => panic!("unexpected middle {other:?}"),
    }
}

#[test]
fn joined_decimals_parse_back() {
    let lists: Vec<Vec<usize>> =
        vec![vec![], vec![0], vec![0, 7, 1000, usize::MAX], vec![5, 5, 10, 100000]];
    for v in lists {
        let joined = v.iter().map(|x| x.to_string()).collect::<Vec<_>>().join(",");
        assert_eq!(parse_usize_list(&joined), v);
    }
}
