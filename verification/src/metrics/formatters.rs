//! Writes a snapshot of the metrics in the Prometheus text format.

use crate::metrics::common::{
    label_entries, label_pairs, metric_views, pair_views, Histogram, HistogramView, Metric,
    MetricValue, MetricView, Snapshot, SnapshotView, ValueView,
};
use crate::metrics::prometheus::{
    help_line, metric_line, sanitized_description, sanitized_label_key, sanitized_label_value,
    string_views, type_line, write_metric_line,
};
use indexmap::IndexMap;
use metrics_exporter_prometheus::formatting::{
    sanitize_description, sanitize_label_key, sanitize_label_value, write_help_line,
    write_type_line,
};
use vstd::prelude::*;

verus! {

/// A label as a line holds it: its key, made fit, `="`, its value, made fit,
/// and `"`.
pub open spec fn label_string(pair: (Seq<char>, Seq<char>)) -> Seq<char> {
    sanitized_label_key(pair.0) + "=\""@ + sanitized_label_value(pair.1) + "\""@
}

/// The labels of a metric as its lines hold them, in the order of the map.
pub open spec fn label_strings(pairs: Seq<(Seq<char>, Seq<char>)>) -> Seq<Seq<char>> {
    pairs.map_values(|pair: (Seq<char>, Seq<char>)| label_string(pair))
}

/// Writes each label of `labels` as a line holds it.
pub fn create_label_string(labels: &IndexMap<String, String>) -> (strings: Vec<String>)
    ensures
        string_views(strings@) == label_strings(label_pairs(*labels)),
{
    let pairs = label_entries(labels);
    let mut strings: Vec<String> = Vec::new();
    let mut i: usize = 0;
    while i < pairs.len()
        invariant
            i <= pairs.len(),
            pair_views(pairs@) == label_pairs(*labels),
            string_views(strings@) == label_strings(label_pairs(*labels)).take(i as int),
        decreases pairs.len() - i,
    {
        let mut label = sanitize_label_key(pairs[i].0.as_str());
        label.append("=\"");
        let value = sanitize_label_value(pairs[i].1.as_str());
        label.append(value.as_str());
        label.append("\"");
        proof {
            assert(pair_views(pairs@)[i as int] == (pairs@[i as int].0@, pairs@[i as int].1@));
            assert(label@ =~= label_string(label_pairs(*labels)[i as int]));
        }
        let ghost before = strings@;
        strings.push(label);
        proof {
            assert(string_views(strings@) =~= string_views(before).push(label@));
            assert(label_strings(label_pairs(*labels)).take(i + 1) =~= label_strings(
                label_pairs(*labels),
            ).take(i as int).push(label@));
        }
        i = i + 1;
    }
    proof {
        assert(pair_views(pairs@).len() == pairs@.len());
        assert(label_strings(label_pairs(*labels)).take(i as int) =~= label_strings(
            label_pairs(*labels),
        ));
    }
    strings
}

/// The character of a decimal digit.
pub open spec fn digit(d: int) -> char {
    if d == 0 {
        '0'
    } else if d == 1 {
        '1'
    } else if d == 2 {
        '2'
    } else if d == 3 {
        '3'
    } else if d == 4 {
        '4'
    } else if d == 5 {
        '5'
    } else if d == 6 {
        '6'
    } else if d == 7 {
        '7'
    } else if d == 8 {
        '8'
    } else {
        '9'
    }
}

/// A number in decimal digits, without leading zeros.
pub open spec fn decimal(n: nat) -> Seq<char>
    decreases n,
{
    if n < 10 {
        seq![digit(n as int)]
    } else {
        decimal(n / 10).push(digit((n % 10) as int))
    }
}

fn digit_text(d: u64) -> (text: &'static str)
    requires
        d < 10,
    ensures
        text@ == seq![digit(d as int)],
{
    let text = if d == 0 {
        proof {
            reveal_strlit("0");
        }
        "0"
    } else if d == 1 {
        proof {
            reveal_strlit("1");
        }
        "1"
    } else if d == 2 {
        proof {
            reveal_strlit("2");
        }
        "2"
    } else if d == 3 {
        proof {
            reveal_strlit("3");
        }
        "3"
    } else if d == 4 {
        proof {
            reveal_strlit("4");
        }
        "4"
    } else if d == 5 {
        proof {
            reveal_strlit("5");
        }
        "5"
    } else if d == 6 {
        proof {
            reveal_strlit("6");
        }
        "6"
    } else if d == 7 {
        proof {
            reveal_strlit("7");
        }
        "7"
    } else if d == 8 {
        proof {
            reveal_strlit("8");
        }
        "8"
    } else {
        proof {
            reveal_strlit("9");
        }
        "9"
    };
    assert(text@ =~= seq![digit(d as int)]);
    text
}

/// Writes a number in decimal digits.
pub fn decimal_text(n: u64) -> (text: String)
    ensures
        text@ == decimal(n as nat),
    decreases n,
{
    if n < 10 {
        String::from_str(digit_text(n))
    } else {
        let mut text = decimal_text(n / 10);
        text.append(digit_text(n % 10));
        assert(text@ =~= decimal(n as nat));
        text
    }
}

/// The two lines that stand before the values of a metric: what it is about,
/// and its type.
pub open spec fn heading(metric: MetricView, metric_type: Seq<char>) -> Seq<char> {
    help_line(metric.key, sanitized_description(metric.description)) + type_line(
        metric.key,
        metric_type,
    )
}

/// What is written for a counter: its heading, its value, and an empty line.
pub open spec fn counter_text(metric: MetricView) -> Seq<char> {
    heading(metric, "counter"@) + (match metric.value {
        ValueView::Counter(count) => metric_line(
            metric.key,
            None,
            label_strings(metric.labels),
            None,
            decimal(count as nat),
        ),
        _ => Seq::empty(),
    }) + "\n"@
}

/// What is written for a gauge: its heading, its value, and an empty line.
pub open spec fn gauge_text(metric: MetricView) -> Seq<char> {
    heading(metric, "gauge"@) + (match metric.value {
        ValueView::Gauge(value) => metric_line(
            metric.key,
            None,
            label_strings(metric.labels),
            None,
            value,
        ),
        _ => Seq::empty(),
    }) + "\n"@
}

/// One line for each bucket of a histogram, with its upper bound as the
/// label `le`.
pub open spec fn bucket_lines(
    key: Seq<char>,
    labels: Seq<Seq<char>>,
    buckets: Seq<(Seq<char>, u64)>,
) -> Seq<char>
    decreases buckets.len(),
{
    if buckets.len() == 0 {
        Seq::empty()
    } else {
        bucket_lines(key, labels, buckets.drop_last()) + metric_line(
            key,
            Some("bucket"@),
            labels,
            Some(("le"@, buckets.last().0)),
            decimal(buckets.last().1 as nat),
        )
    }
}

/// The lines of a histogram: its buckets, the bucket without an upper bound,
/// the sum and the count.
pub open spec fn histogram_lines(
    key: Seq<char>,
    labels: Seq<Seq<char>>,
    histogram: HistogramView,
) -> Seq<char> {
    bucket_lines(key, labels, histogram.buckets) + metric_line(
        key,
        Some("bucket"@),
        labels,
        Some(("le"@, "+Inf"@)),
        decimal(histogram.count as nat),
    ) + metric_line(key, Some("sum"@), labels, None, histogram.sum) + metric_line(
        key,
        Some("count"@),
        labels,
        None,
        decimal(histogram.count as nat),
    )
}

/// What is written for a histogram: its heading, its lines, and an empty line.
pub open spec fn histogram_text(metric: MetricView) -> Seq<char> {
    heading(metric, "histogram"@) + (match metric.value {
        ValueView::Histogram(histogram) => histogram_lines(
            metric.key,
            label_strings(metric.labels),
            histogram,
        ),
        _ => Seq::empty(),
    }) + "\n"@
}

/// What is written for each metric of `metrics` as a counter, one after the other.
pub open spec fn counters_text(metrics: Seq<MetricView>) -> Seq<char>
    decreases metrics.len(),
{
    if metrics.len() == 0 {
        Seq::empty()
    } else {
        counters_text(metrics.drop_last()) + counter_text(metrics.last())
    }
}

/// What is written for each metric of `metrics` as a gauge, one after the other.
pub open spec fn gauges_text(metrics: Seq<MetricView>) -> Seq<char>
    decreases metrics.len(),
{
    if metrics.len() == 0 {
        Seq::empty()
    } else {
        gauges_text(metrics.drop_last()) + gauge_text(metrics.last())
    }
}

/// What is written for each metric of `metrics` as a histogram, one after
/// the other.
pub open spec fn histograms_text(metrics: Seq<MetricView>) -> Seq<char>
    decreases metrics.len(),
{
    if metrics.len() == 0 {
        Seq::empty()
    } else {
        histograms_text(metrics.drop_last()) + histogram_text(metrics.last())
    }
}

/// A snapshot in the Prometheus text format: the counters, then the gauges,
/// then the histograms.
pub open spec fn prometheus_text(snapshot: SnapshotView) -> Seq<char> {
    counters_text(snapshot.counters) + gauges_text(snapshot.gauges) + histograms_text(
        snapshot.histograms,
    )
}

fn write_heading(output: &mut String, metric: &Metric, metric_type: &str)
    ensures
        final(output)@ == old(output)@ + heading(metric@, metric_type@),
{
    let desc = sanitize_description(metric.description.as_str());
    write_help_line(output, metric.key.as_str(), desc.as_str());
    write_type_line(output, metric.key.as_str(), metric_type);
    assert(output@ =~= old(output)@ + heading(metric@, metric_type@));
}

fn write_counter(output: &mut String, counter: &Metric)
    ensures
        final(output)@ == old(output)@ + counter_text(counter@),
{
    write_heading(output, counter, "counter");
    let labels = create_label_string(&counter.labels);
    match &counter.value {
        MetricValue::Counter(value) => {
            let text = decimal_text(*value);
            write_metric_line(output, counter.key.as_str(), None, &labels, None, text.as_str());
        },
        _ => {},
    }
    output.append("\n");
    assert(output@ =~= old(output)@ + counter_text(counter@));
}

fn write_gauge(output: &mut String, gauge: &Metric)
    ensures
        final(output)@ == old(output)@ + gauge_text(gauge@),
{
    write_heading(output, gauge, "gauge");
    let labels = create_label_string(&gauge.labels);
    match &gauge.value {
        MetricValue::Gauge(value) => {
            write_metric_line(output, gauge.key.as_str(), None, &labels, None, value.as_str());
        },
        _ => {},
    }
    output.append("\n");
    assert(output@ =~= old(output)@ + gauge_text(gauge@));
}

fn write_histogram_lines(output: &mut String, key: &str, labels: &Vec<String>, values: &Histogram)
    ensures
        final(output)@ == old(output)@ + histogram_lines(key@, string_views(labels@), values@),
{
    let ghost buckets = values@.buckets;
    let mut i: usize = 0;
    while i < values.buckets.len()
        invariant
            i <= values.buckets.len(),
            buckets == values@.buckets,
            output@ == old(output)@ + bucket_lines(
                key@,
                string_views(labels@),
                buckets.take(i as int),
            ),
        decreases values.buckets.len() - i,
    {
        let ghost before = output@;
        let count = decimal_text(values.buckets[i].1);
        write_metric_line(
            output,
            key,
            Some("bucket"),
            labels,
            Some(("le", values.buckets[i].0.as_str())),
            count.as_str(),
        );
        proof {
            assert(buckets.take(i + 1).drop_last() =~= buckets.take(i as int));
            assert(buckets.take(i + 1).last() == (
                values.buckets@[i as int].0@,
                values.buckets@[i as int].1,
            ));
            assert(output@ =~= old(output)@ + bucket_lines(
                key@,
                string_views(labels@),
                buckets.take(i + 1),
            ));
        }
        i = i + 1;
    }
    assert(buckets.take(i as int) =~= buckets);
    let count = decimal_text(values.count);
    write_metric_line(output, key, Some("bucket"), labels, Some(("le", "+Inf")), count.as_str());
    write_metric_line(output, key, Some("sum"), labels, None, values.sum.as_str());
    write_metric_line(output, key, Some("count"), labels, None, count.as_str());
    assert(output@ =~= old(output)@ + histogram_lines(key@, string_views(labels@), values@));
}

fn write_histogram(output: &mut String, histogram: &Metric)
    ensures
        final(output)@ == old(output)@ + histogram_text(histogram@),
{
    write_heading(output, histogram, "histogram");
    let labels = create_label_string(&histogram.labels);
    match &histogram.value {
        MetricValue::Histogram(values) => {
            write_histogram_lines(output, histogram.key.as_str(), &labels, values);
        },
        _ => {},
    }
    output.append("\n");
    assert(output@ =~= old(output)@ + histogram_text(histogram@));
}

/// Writes the snapshot in the Prometheus text format.
pub fn metrics_to_prometheus(snapshot: Snapshot) -> (output: String)
    ensures
        output@ == prometheus_text(snapshot@),
{
    let Snapshot { counters, histograms, gauges } = snapshot;
    let mut output = String::new();
    let mut i: usize = 0;
    while i < counters.len()
        invariant
            i <= counters.len(),
            output@ == counters_text(metric_views(counters@).take(i as int)),
        decreases counters.len() - i,
    {
        write_counter(&mut output, &counters[i]);
        proof {
            let views = metric_views(counters@);
            assert(views.take(i + 1).drop_last() =~= views.take(i as int));
            assert(views.take(i + 1).last() == counters@[i as int]@);
        }
        i = i + 1;
    }
    assert(metric_views(counters@).take(i as int) =~= metric_views(counters@));
    let ghost first = output@;
    i = 0;
    while i < gauges.len()
        invariant
            i <= gauges.len(),
            output@ == first + gauges_text(metric_views(gauges@).take(i as int)),
        decreases gauges.len() - i,
    {
        write_gauge(&mut output, &gauges[i]);
        proof {
            let views = metric_views(gauges@);
            assert(views.take(i + 1).drop_last() =~= views.take(i as int));
            assert(views.take(i + 1).last() == gauges@[i as int]@);
            assert(output@ =~= first + gauges_text(views.take(i + 1)));
        }
        i = i + 1;
    }
    assert(metric_views(gauges@).take(i as int) =~= metric_views(gauges@));
    let ghost second = output@;
    i = 0;
    while i < histograms.len()
        invariant
            i <= histograms.len(),
            output@ == second + histograms_text(metric_views(histograms@).take(i as int)),
        decreases histograms.len() - i,
    {
        write_histogram(&mut output, &histograms[i]);
        proof {
            let views = metric_views(histograms@);
            assert(views.take(i + 1).drop_last() =~= views.take(i as int));
            assert(views.take(i + 1).last() == histograms@[i as int]@);
            assert(output@ =~= second + histograms_text(views.take(i + 1)));
        }
        i = i + 1;
    }
    assert(metric_views(histograms@).take(i as int) =~= metric_views(histograms@));
    output
}

} // verus!
