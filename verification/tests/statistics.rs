use mqtt_bench::statistics::{
    format_report_line, percentiles, Bucket, Histogram, Percentiles, Statistics,
};

fn counts(histogram: &Histogram) -> Vec<u64> {
    histogram.snapshot().iter().map(|b| b.cumulative_count).collect()
}

fn bounds(histogram: &Histogram) -> Vec<u64> {
    histogram.snapshot().iter().map(|b| b.upper_bound).collect()
}

#[test]
fn linear_layout_has_the_bounds_asked_for() {
    let histogram = Histogram::linear(0, 100, 10).unwrap();
    assert_eq!(bounds(&histogram), vec![0, 100, 200, 300, 400, 500, 600, 700, 800, 900]);
    assert_eq!(counts(&histogram), vec![0; 10]);
    assert_eq!(histogram.count(), 0);
    let shifted = Histogram::linear(5, 10, 3).unwrap();
    assert_eq!(bounds(&shifted), vec![5, 15, 25]);
}

#[test]
fn linear_layout_rejects_what_cannot_be_laid_out() {
    assert!(Histogram::linear(0, 10, 0).is_none());
    assert!(Histogram::linear(0, 0, 10).is_none());
    assert!(Histogram::linear(u64::MAX, 1, 2).is_none());
    assert!(Histogram::linear(u64::MAX - 1, 1, 2).is_some());
    assert!(Histogram::linear(u64::MAX, 1, 1).is_some());
}

#[test]
fn observe_counts_in_the_first_bucket_that_holds_the_value() {
    let mut histogram = Histogram::linear(0, 100, 10).unwrap();
    histogram.observe(0);
    assert_eq!(counts(&histogram), vec![1, 1, 1, 1, 1, 1, 1, 1, 1, 1]);
    histogram.observe(1);
    assert_eq!(counts(&histogram), vec![1, 2, 2, 2, 2, 2, 2, 2, 2, 2]);
    histogram.observe(100);
    assert_eq!(counts(&histogram), vec![1, 3, 3, 3, 3, 3, 3, 3, 3, 3]);
    histogram.observe(101);
    assert_eq!(counts(&histogram), vec![1, 3, 4, 4, 4, 4, 4, 4, 4, 4]);
    histogram.observe(900);
    assert_eq!(counts(&histogram), vec![1, 3, 4, 4, 4, 4, 4, 4, 4, 5]);
    assert_eq!(histogram.count(), 5);
    assert_eq!(bounds(&histogram), vec![0, 100, 200, 300, 400, 500, 600, 700, 800, 900]);
}

#[test]
fn observe_clamps_large_values_into_the_last_bucket() {
    let mut histogram = Histogram::linear(0, 10, 3).unwrap();
    histogram.observe(21);
    histogram.observe(u128::MAX);
    assert_eq!(counts(&histogram), vec![0, 0, 2]);
    assert_eq!(histogram.count(), 2);
}

#[test]
fn cumulative_counts_never_fall_and_end_at_the_sample_count() {
    let mut histogram = Histogram::linear(0, 10, 20).unwrap();
    let mut value: u128 = 7;
    for _ in 0..500 {
        histogram.observe(value % 260);
        value = value * 31 + 11;
        let seen = counts(&histogram);
        for pair in seen.windows(2) {
            assert!(pair[0] <= pair[1]);
        }
        assert_eq!(*seen.last().unwrap(), histogram.count());
    }
    assert_eq!(histogram.count(), 500);
}

#[test]
fn percentiles_of_an_empty_histogram_are_none() {
    let histogram = Histogram::linear(0, 10, 20).unwrap();
    assert_eq!(histogram.percentiles(), None);
    assert_eq!(percentiles(&Vec::new()), None);
    assert_eq!(percentiles(&vec![Bucket { upper_bound: 10, cumulative_count: 0 }]), None);
}

#[test]
fn percentiles_of_one_bucket_are_its_bound() {
    let mut histogram = Histogram::linear(0, 10, 20).unwrap();
    for _ in 0..37 {
        histogram.observe(42);
    }
    assert_eq!(histogram.percentiles(), Some(Percentiles { p90: 50, p95: 50, p99: 50 }));
}

#[test]
fn percentiles_of_one_sample_are_the_bound_of_its_bucket() {
    let mut histogram = Histogram::linear(0, 100, 10).unwrap();
    histogram.observe(450);
    assert_eq!(histogram.percentiles(), Some(Percentiles { p90: 500, p95: 500, p99: 500 }));
    let mut overflow = Histogram::linear(0, 100, 10).unwrap();
    overflow.observe(100_000);
    assert_eq!(overflow.percentiles(), Some(Percentiles { p90: 900, p95: 900, p99: 900 }));
}

#[test]
fn percentiles_of_an_even_spread() {
    let mut histogram = Histogram::linear(0, 10, 20).unwrap();
    for value in 1..=100u128 {
        histogram.observe(value);
    }
    assert_eq!(histogram.percentiles(), Some(Percentiles { p90: 90, p95: 100, p99: 100 }));
}

#[test]
fn percentiles_take_the_first_bucket_that_reaches_the_target() {
    let buckets = vec![
        Bucket { upper_bound: 1, cumulative_count: 89 },
        Bucket { upper_bound: 2, cumulative_count: 90 },
        Bucket { upper_bound: 3, cumulative_count: 94 },
        Bucket { upper_bound: 4, cumulative_count: 95 },
        Bucket { upper_bound: 5, cumulative_count: 98 },
        Bucket { upper_bound: 6, cumulative_count: 99 },
        Bucket { upper_bound: 7, cumulative_count: 100 },
    ];
    assert_eq!(percentiles(&buckets), Some(Percentiles { p90: 2, p95: 4, p99: 6 }));
}

#[test]
fn percentiles_do_not_round_the_target_down() {
    let buckets = vec![
        Bucket { upper_bound: 10, cumulative_count: 9 },
        Bucket { upper_bound: 20, cumulative_count: 10 },
        Bucket { upper_bound: 30, cumulative_count: 11 },
    ];
    assert_eq!(percentiles(&buckets), Some(Percentiles { p90: 20, p95: 30, p99: 30 }));
}

#[test]
fn record_drops_nothing_while_there_is_room() {
    let mut histogram = Histogram::linear(0, 10, 3).unwrap();
    assert!(histogram.record(5));
    assert!(histogram.record(50));
    assert_eq!(counts(&histogram), vec![0, 1, 2]);
}

#[test]
fn report_line_is_spelled_out() {
    let line = format_report_line(
        "Connect Latency Histogram",
        &Percentiles { p90: 100, p95: 200, p99: 900 },
    );
    assert_eq!(line, "Connect Latency Histogram P90: 100ms, P95: 200ms, P99: 900ms");
    let zero = format_report_line("x", &Percentiles { p90: 0, p95: 0, p99: u64::MAX });
    assert_eq!(zero, "x P90: 0ms, P95: 0ms, P99: 18446744073709551615ms");
}

#[test]
fn new_statistics_have_the_three_layouts() {
    let statistics = Statistics::new();
    assert_eq!(
        bounds(&statistics.latency.connect),
        vec![0, 100, 200, 300, 400, 500, 600, 700, 800, 900]
    );
    let fine: Vec<u64> = (0..20).map(|i| i * 10).collect();
    assert_eq!(bounds(&statistics.latency.publish), fine);
    assert_eq!(bounds(&statistics.latency.subscribe), fine);
    assert_eq!(statistics.latency.connect.count(), 0);
    let by_default = Statistics::default();
    assert_eq!(bounds(&by_default.latency.publish), fine);
}

#[test]
fn show_statistics_skips_histograms_without_samples() {
    let mut statistics = Statistics::new();
    assert!(statistics.show_statistics().is_empty());
    statistics.latency.subscribe.observe(3);
    assert_eq!(
        statistics.show_statistics(),
        vec!["E2E MQTT Message Delivery Latency P90: 10ms, P95: 10ms, P99: 10ms".to_string()]
    );
    statistics.latency.connect.observe(250);
    statistics.latency.publish.observe(0);
    assert_eq!(
        statistics.show_statistics(),
        vec![
            "Connect Latency Histogram P90: 300ms, P95: 300ms, P99: 300ms".to_string(),
            "Publish MQTT Message Latency P90: 0ms, P95: 0ms, P99: 0ms".to_string(),
            "E2E MQTT Message Delivery Latency P90: 10ms, P95: 10ms, P99: 10ms".to_string(),
        ]
    );
}
