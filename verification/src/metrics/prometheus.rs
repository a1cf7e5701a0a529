//! The lines of the Prometheus text format, as `metrics_exporter_prometheus`
//! writes them.

use vstd::prelude::*;

verus! {

/// What `sanitize_description` makes of the description of a metric.
pub uninterp spec fn sanitized_description(text: Seq<char>) -> Seq<char>;

/// What `sanitize_label_value` makes of the value of a label.
pub uninterp spec fn sanitized_label_value(text: Seq<char>) -> Seq<char>;

/// Whether `c` is one of the letters `a` to `z` and `A` to `Z`.
pub open spec fn is_ascii_letter(c: char) -> bool {
    ('a' <= c && c <= 'z') || ('A' <= c && c <= 'Z')
}

/// Whether `c` may stand in the key of a label: a letter or `_` anywhere, a
/// digit anywhere but in the first place.
pub open spec fn fits_label_key(c: char, first: bool) -> bool {
    is_ascii_letter(c) || c == '_' || (!first && '0' <= c && c <= '9')
}

/// The key of a label with `_` in place of each character that may not stand
/// in its place.
pub open spec fn sanitized_label_key(key: Seq<char>) -> Seq<char> {
    Seq::new(
        key.len(),
        |i: int|
            if fits_label_key(key[i], i == 0) {
                key[i]
            } else {
                '_'
            },
    )
}

/// The line that tells what a metric is about.
pub open spec fn help_line(name: Seq<char>, desc: Seq<char>) -> Seq<char> {
    "# HELP "@ + name + " "@ + sanitized_description(desc) + "\n"@
}

/// The line that tells the type of a metric.
pub open spec fn type_line(name: Seq<char>, metric_type: Seq<char>) -> Seq<char> {
    "# TYPE "@ + name + " "@ + metric_type + "\n"@
}

/// `labels` one after the other, with a comma between any two.
pub open spec fn comma_separated(labels: Seq<Seq<char>>) -> Seq<char>
    decreases labels.len(),
{
    if labels.len() == 0 {
        Seq::empty()
    } else if labels.len() == 1 {
        labels[0]
    } else {
        comma_separated(labels.drop_last()) + ","@ + labels.last()
    }
}

/// The labels of a line in their braces, with the additional label last; or
/// nothing where there is no label at all.
pub open spec fn label_block(
    labels: Seq<Seq<char>>,
    additional_label: Option<(Seq<char>, Seq<char>)>,
) -> Seq<char> {
    match additional_label {
        Some((name, value)) => "{"@ + comma_separated(labels) + (if labels.len() > 0 {
            ","@
        } else {
            Seq::empty()
        }) + name + "=\""@ + value + "\""@ + "}"@,
        None => if labels.len() > 0 {
            "{"@ + comma_separated(labels) + "}"@
        } else {
            Seq::empty()
        },
    }
}

/// The line that gives one value of a metric: its name, with `_` and the
/// suffix where there is one, its labels, a space and the value.
pub open spec fn metric_line(
    name: Seq<char>,
    suffix: Option<Seq<char>>,
    labels: Seq<Seq<char>>,
    additional_label: Option<(Seq<char>, Seq<char>)>,
    value: Seq<char>,
) -> Seq<char> {
    name + (match suffix {
        Some(suffix) => "_"@ + suffix,
        None => Seq::empty(),
    }) + label_block(labels, additional_label) + " "@ + value + "\n"@
}

/// Strings as contracts see them.
pub open spec fn string_views(strings: Seq<String>) -> Seq<Seq<char>> {
    strings.map_values(|s: String| s@)
}

/// `metrics_exporter_prometheus::formatting::sanitize_description`: the
/// result depends on the text alone, and the contract gives it its name.
pub assume_specification[ metrics_exporter_prometheus::formatting::sanitize_description ](
    value: &str,
) -> (clean: String)
    ensures
        clean@ == sanitized_description(value@),
;

/// `metrics_exporter_prometheus::formatting::sanitize_label_value`: the
/// result depends on the text alone, and the contract gives it its name.
pub assume_specification[ metrics_exporter_prometheus::formatting::sanitize_label_value ](
    value: &str,
) -> (clean: String)
    ensures
        clean@ == sanitized_label_value(value@),
;

/// `metrics_exporter_prometheus::formatting::sanitize_label_key`: each
/// character that is no ASCII letter or `_`, nor, after the first place, an
/// ASCII digit, is replaced by `_`; the others are kept.
pub assume_specification[ metrics_exporter_prometheus::formatting::sanitize_label_key ](
    key: &str,
) -> (clean: String)
    ensures
        clean@ == sanitized_label_key(key@),
;

/// `metrics_exporter_prometheus::formatting::write_help_line`: appends
/// `# HELP `, the name, a space, the description as `sanitize_description`
/// leaves it, and a line feed.
pub assume_specification[ metrics_exporter_prometheus::formatting::write_help_line ](
    buffer: &mut String,
    name: &str,
    desc: &str,
)
    ensures
        final(buffer)@ == old(buffer)@ + help_line(name@, desc@),
;

/// `metrics_exporter_prometheus::formatting::write_type_line`: appends
/// `# TYPE `, the name, a space, the type and a line feed.
pub assume_specification[ metrics_exporter_prometheus::formatting::write_type_line ](
    buffer: &mut String,
    name: &str,
    metric_type: &str,
)
    ensures
        final(buffer)@ == old(buffer)@ + type_line(name@, metric_type@),
;

/// Calls `metrics_exporter_prometheus::formatting::write_metric_line` with
/// texts for the value of the additional label and for the value of the line,
/// which it prints as they are. It appends the name, `_` and the suffix where
/// there is one, then, where there is any label, the labels and the additional
/// label between braces and with commas between them, the additional label as
/// its name, `="`, its value and `"`, then a space, the value and a line feed.
#[verifier::external_body]
pub(crate) fn write_metric_line(
    buffer: &mut String,
    name: &str,
    suffix: Option<&'static str>,
    labels: &Vec<String>,
    additional_label: Option<(&'static str, &str)>,
    value: &str,
)
    ensures
        final(buffer)@ == old(buffer)@ + metric_line(
            name@,
            match suffix {
                Some(text) => Some(text@),
                None => None,
            },
            string_views(labels@),
            match additional_label {
                Some((label, text)) => Some((label@, text@)),
                None => None,
            },
            value@,
        ),
{
    metrics_exporter_prometheus::formatting::write_metric_line(
        buffer,
        name,
        suffix,
        labels,
        additional_label,
        value,
    )
}

} // verus!
