//! A snapshot of the metrics: counters, gauges and histograms.

use indexmap::IndexMap;
use vstd::prelude::*;

verus! {

/// `indexmap::IndexMap`, carried as it is. Contracts see what a map of labels
/// holds through `label_pairs`.
#[verifier::external_type_specification]
#[verifier::external_body]
#[verifier::reject_recursive_types(K)]
#[verifier::reject_recursive_types(V)]
#[verifier::reject_recursive_types(S)]
pub struct ExIndexMap<K, V, S>(IndexMap<K, V, S>);

/// The keys and values that a map of labels holds, in the order in which the
/// map yields them.
pub uninterp spec fn label_pairs(labels: IndexMap<String, String>) -> Seq<(Seq<char>, Seq<char>)>;

/// Pairs of strings as contracts see them.
pub open spec fn pair_views(pairs: Seq<(String, String)>) -> Seq<(Seq<char>, Seq<char>)> {
    pairs.map_values(|pair: (String, String)| (pair.0@, pair.1@))
}

/// Calls `IndexMap::iter` and copies out each pair that it yields. The
/// contract claims that these are the pairs of the map, in its order.
#[verifier::external_body]
pub(crate) fn label_entries(labels: &IndexMap<String, String>) -> (pairs: Vec<(String, String)>)
    ensures
        pair_views(pairs@) == label_pairs(*labels),
{
    labels.iter().map(|(key, value)| (key.clone(), value.clone())).collect()
}

/// The buckets of a histogram, with the sum and the number of what was
/// observed. The upper bound of a bucket and the sum are held as the text that
/// they are printed as.
#[derive(Debug)]
pub struct Histogram {
    pub buckets: Vec<(String, u64)>,
    pub sum: String,
    pub count: u64,
}

/// A `Histogram` as contracts see it.
pub struct HistogramView {
    pub buckets: Seq<(Seq<char>, u64)>,
    pub sum: Seq<char>,
    pub count: u64,
}

impl View for Histogram {
    type V = HistogramView;

    open spec fn view(&self) -> HistogramView {
        HistogramView {
            buckets: self.buckets@.map_values(|bucket: (String, u64)| (bucket.0@, bucket.1)),
            sum: self.sum@,
            count: self.count,
        }
    }
}

/// What a metric measured. The value of a gauge is held as the text that it is
/// printed as.
#[derive(Debug)]
pub enum MetricValue {
    Counter(u64),
    Gauge(String),
    Histogram(Histogram),
}

/// A `MetricValue` as contracts see it.
pub enum ValueView {
    Counter(u64),
    Gauge(Seq<char>),
    Histogram(HistogramView),
}

impl View for MetricValue {
    type V = ValueView;

    open spec fn view(&self) -> ValueView {
        match *self {
            MetricValue::Counter(count) => ValueView::Counter(count),
            MetricValue::Gauge(text) => ValueView::Gauge(text@),
            MetricValue::Histogram(histogram) => ValueView::Histogram(histogram@),
        }
    }
}

/// One metric: its key, its labels, what it measured and what it is about.
#[derive(Debug)]
pub struct Metric {
    pub key: String,
    pub labels: IndexMap<String, String>,
    pub value: MetricValue,
    pub description: String,
}

/// A `Metric` as contracts see it.
pub struct MetricView {
    pub key: Seq<char>,
    pub labels: Seq<(Seq<char>, Seq<char>)>,
    pub value: ValueView,
    pub description: Seq<char>,
}

impl View for Metric {
    type V = MetricView;

    open spec fn view(&self) -> MetricView {
        MetricView {
            key: self.key@,
            labels: label_pairs(self.labels),
            value: self.value@,
            description: self.description@,
        }
    }
}

/// The metrics at one moment, by kind.
#[derive(Debug)]
pub struct Snapshot {
    pub counters: Vec<Metric>,
    pub gauges: Vec<Metric>,
    pub histograms: Vec<Metric>,
}

/// A `Snapshot` as contracts see it.
pub struct SnapshotView {
    pub counters: Seq<MetricView>,
    pub gauges: Seq<MetricView>,
    pub histograms: Seq<MetricView>,
}

/// Metrics as contracts see them.
pub open spec fn metric_views(metrics: Seq<Metric>) -> Seq<MetricView> {
    metrics.map_values(|metric: Metric| metric@)
}

impl View for Snapshot {
    type V = SnapshotView;

    open spec fn view(&self) -> SnapshotView {
        SnapshotView {
            counters: metric_views(self.counters@),
            gauges: metric_views(self.gauges@),
            histograms: metric_views(self.histograms@),
        }
    }
}

} // verus!
