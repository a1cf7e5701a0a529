use indexmap::IndexMap;
use metrics_exporter_prometheus::formatting;
use migration_core::metrics::common::{Histogram, Metric, MetricValue, Snapshot};
use migration_core::metrics::formatters::{create_label_string, decimal_text, metrics_to_prometheus};

fn labels(pairs: &[(&str, &str)]) -> IndexMap<String, String> {
    let mut map = IndexMap::new();
    for (key, value) in pairs {
        map.insert(key.to_string(), value.to_string());
    }
    map
}

fn metric(key: &str, pairs: &[(&str, &str)], value: MetricValue, description: &str) -> Metric {
    Metric {
        key: key.to_string(),
        labels: labels(pairs),
        value,
        description: description.to_string(),
    }
}

fn snapshot(counters: Vec<Metric>, gauges: Vec<Metric>, histograms: Vec<Metric>) -> Snapshot {
    Snapshot { counters, gauges, histograms }
}

#[test]
fn decimal_text_writes_digits() {
    assert_eq!(decimal_text(0), "0");
    assert_eq!(decimal_text(9), "9");
    assert_eq!(decimal_text(10), "10");
    assert_eq!(decimal_text(12345), "12345");
    assert_eq!(decimal_text(1_000_000), "1000000");
    assert_eq!(decimal_text(u64::MAX), "18446744073709551615");
    let mut n: u64 = 1;
    while n < u64::MAX / 7 {
        assert_eq!(decimal_text(n), n.to_string());
        n = n * 7 + 3;
    }
}

#[test]
fn labels_are_written_in_map_order() {
    let map = labels(&[("zone", "eu"), ("app", "engine"), ("1st", "x")]);
    assert_eq!(
        create_label_string(&map),
        vec!["zone=\"eu\"".to_string(), "app=\"engine\"".to_string(), "_st=\"x\"".to_string()]
    );
    assert!(create_label_string(&IndexMap::new()).is_empty());
}

#[test]
fn label_keys_and_values_are_made_fit() {
    let map = labels(&[("my-key 9", "say \"hi\"\n"), ("9", "a\\b")]);
    assert_eq!(
        create_label_string(&map),
        vec!["my_key_9=\"say \\\"hi\\\"\\n\"".to_string(), "_=\"a\\\\b\"".to_string()]
    );
}

#[test]
fn empty_snapshot_is_empty_text() {
    assert_eq!(metrics_to_prometheus(snapshot(vec![], vec![], vec![])), "");
}

#[test]
fn counter_is_written_with_heading_and_value() {
    let counter = metric(
        "query_total_queries",
        &[("env", "test")],
        MetricValue::Counter(7),
        "Total queries",
    );
    assert_eq!(
        metrics_to_prometheus(snapshot(vec![counter], vec![], vec![])),
        "# HELP query_total_queries Total queries\n\
         # TYPE query_total_queries counter\n\
         query_total_queries{env=\"test\"} 7\n\n"
    );
}

#[test]
fn counter_without_labels_has_no_braces() {
    let counter = metric("c", &[], MetricValue::Counter(0), "");
    assert_eq!(
        metrics_to_prometheus(snapshot(vec![counter], vec![], vec![])),
        "# HELP c \n# TYPE c counter\nc 0\n\n"
    );
}

#[test]
fn description_is_made_fit_twice() {
    let counter = metric("k", &[], MetricValue::Counter(1), "a\nb");
    assert_eq!(
        metrics_to_prometheus(snapshot(vec![counter], vec![], vec![])),
        "# HELP k a\\\\nb\n# TYPE k counter\nk 1\n\n"
    );
    let quoted = metric("k", &[], MetricValue::Counter(1), "say \"hi\"");
    assert_eq!(
        metrics_to_prometheus(snapshot(vec![quoted], vec![], vec![])),
        "# HELP k say \"hi\"\n# TYPE k counter\nk 1\n\n"
    );
}

#[test]
fn gauge_is_written_with_its_text() {
    let gauge = metric(
        "pool_active",
        &[("a", "1"), ("b", "2")],
        MetricValue::Gauge((2.5f64).to_string()),
        "Active connections",
    );
    assert_eq!(
        metrics_to_prometheus(snapshot(vec![], vec![gauge], vec![])),
        "# HELP pool_active Active connections\n\
         # TYPE pool_active gauge\n\
         pool_active{a=\"1\",b=\"2\"} 2.5\n\n"
    );
}

#[test]
fn histogram_is_written_with_buckets_sum_and_count() {
    let histogram = metric(
        "h",
        &[],
        MetricValue::Histogram(Histogram {
            buckets: vec![("0.5".to_string(), 1), ("1".to_string(), 3)],
            sum: "2.5".to_string(),
            count: 3,
        }),
        "desc",
    );
    assert_eq!(
        metrics_to_prometheus(snapshot(vec![], vec![], vec![histogram])),
        "# HELP h desc\n\
         # TYPE h histogram\n\
         h_bucket{le=\"0.5\"} 1\n\
         h_bucket{le=\"1\"} 3\n\
         h_bucket{le=\"+Inf\"} 3\n\
         h_sum 2.5\n\
         h_count 3\n\n"
    );
}

#[test]
fn histogram_with_labels_puts_le_last() {
    let histogram = metric(
        "h",
        &[("db", "pg")],
        MetricValue::Histogram(Histogram {
            buckets: vec![("10".to_string(), 4)],
            sum: "12".to_string(),
            count: 4,
        }),
        "d",
    );
    assert_eq!(
        metrics_to_prometheus(snapshot(vec![], vec![], vec![histogram])),
        "# HELP h d\n\
         # TYPE h histogram\n\
         h_bucket{db=\"pg\",le=\"10\"} 4\n\
         h_bucket{db=\"pg\",le=\"+Inf\"} 4\n\
         h_sum{db=\"pg\"} 12\n\
         h_count{db=\"pg\"} 4\n\n"
    );
}

#[test]
fn value_of_another_kind_leaves_only_the_heading() {
    let misplaced = metric("g", &[("a", "b")], MetricValue::Gauge("1".to_string()), "d");
    assert_eq!(
        metrics_to_prometheus(snapshot(vec![misplaced], vec![], vec![])),
        "# HELP g d\n# TYPE g counter\n\n"
    );
    let misplaced = metric("c", &[], MetricValue::Counter(1), "d");
    assert_eq!(
        metrics_to_prometheus(snapshot(vec![], vec![], vec![misplaced])),
        "# HELP c d\n# TYPE c histogram\n\n"
    );
}

#[test]
fn kinds_are_written_counters_first_then_gauges_then_histograms() {
    let text = metrics_to_prometheus(snapshot(
        vec![
            metric("c1", &[], MetricValue::Counter(1), "x"),
            metric("c2", &[], MetricValue::Counter(2), "x"),
        ],
        vec![metric("g1", &[], MetricValue::Gauge("0".to_string()), "x")],
        vec![metric(
            "h1",
            &[],
            MetricValue::Histogram(Histogram { buckets: vec![], sum: "0".to_string(), count: 0 }),
            "x",
        )],
    ));
    assert_eq!(
        text,
        "# HELP c1 x\n# TYPE c1 counter\nc1 1\n\n\
         # HELP c2 x\n# TYPE c2 counter\nc2 2\n\n\
         # HELP g1 x\n# TYPE g1 gauge\ng1 0\n\n\
         # HELP h1 x\n# TYPE h1 histogram\nh1_bucket{le=\"+Inf\"} 0\nh1_sum 0\nh1_count 0\n\n"
    );
}

#[test]
fn text_of_floats_is_written_as_the_floats_would_be() {
    let le: f64 = 0.005;
    let sum: f64 = 1234.5;
    let value: f64 = -0.75;
    let pairs = [("a", "b")];
    let label_strings = create_label_string(&labels(&pairs));
    let mut expected = String::new();
    let desc = formatting::sanitize_description("d");
    formatting::write_help_line(&mut expected, "g", desc.as_str());
    formatting::write_type_line(&mut expected, "g", "gauge");
    formatting::write_metric_line::<&str, f64>(&mut expected, "g", None, &label_strings, None, value);
    expected.push('\n');
    formatting::write_help_line(&mut expected, "h", desc.as_str());
    formatting::write_type_line(&mut expected, "h", "histogram");
    formatting::write_metric_line(&mut expected, "h", Some("bucket"), &label_strings, Some(("le", le)), 2u64);
    formatting::write_metric_line(&mut expected, "h", Some("bucket"), &label_strings, Some(("le", "+Inf")), 2u64);
    formatting::write_metric_line::<&str, f64>(&mut expected, "h", Some("sum"), &label_strings, None, sum);
    formatting::write_metric_line::<&str, u64>(&mut expected, "h", Some("count"), &label_strings, None, 2);
    expected.push('\n');
    let text = metrics_to_prometheus(snapshot(
        vec![],
        vec![metric("g", &pairs, MetricValue::Gauge(value.to_string()), "d")],
        vec![metric(
            "h",
            &pairs,
            MetricValue::Histogram(Histogram {
                buckets: vec![(le.to_string(), 2)],
                sum: sum.to_string(),
                count: 2,
            }),
            "d",
        )],
    ));
    assert_eq!(text, expected);
}
