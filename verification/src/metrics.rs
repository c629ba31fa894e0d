//! Focus-attempt counters in a metrics registry, keyed by compositor label
//! and result.

use vstd::prelude::*;

verus! {

/// The counter family: one registry with one integer counter vector keyed by
/// (compositor, result). The vector's type parameter is private to its
/// crate, so the collection is held opaquely here and reached only through
/// the functions below.
#[verifier::external_body]
pub struct FocusMetrics {
    registry: prometheus::Registry,
    counter: prometheus::IntCounterVec,
}

/// What the counter family holds: under each admissible label text (a
/// compositor label followed by "success" or "failure", written back to
/// back as the family keys its children), the count of the child stored
/// there; on any other text the map reads zero. The family tells its
/// children apart by a 64-bit FNV-1a hash of that text alone, and the eight
/// admissible texts hash pairwise distinctly, so each names its own child;
/// the functions below admit only these texts, so no other child ever
/// exists.
pub uninterp spec fn focus_counts(m: &FocusMetrics) -> Map<Seq<char>, u64>;

/// The label texts the counter family is used with: one of the four
/// compositor labels, and one of the two result labels.
pub open spec fn spec_admissible_focus_labels(compositor: Seq<char>, result: Seq<char>) -> bool {
    &&& crate::compositor::spec_is_wm_label(compositor)
    &&& (result == "success"@ || result == "failure"@)
}

/// Relies on prometheus::Registry::new, Opts::new, IntCounterVec::new and
/// Registry::register: a fresh registry holding one counter family whose
/// counters all read zero.
#[verifier::external_body]
pub fn new_focus_metrics() -> (m: FocusMetrics)
    ensures
        forall|k: Seq<char>| #[trigger] focus_counts(&m)[k] == 0u64,
{
    let registry = prometheus::Registry::new();
    let opts = prometheus::Opts::new(
        "snips_window_focus_attempts_total",
        "Window focus attempts grouped by compositor and result",
    );
    let counter = prometheus::IntCounterVec::new(opts, &["compositor", "result"])
        .expect("failed to create focus attempt counter");
    registry
        .register(Box::new(counter.clone()))
        .expect("failed to register focus attempt counter");
    FocusMetrics { registry, counter }
}

/// One counter moved up by one (wrapping at the integer bound, as the
/// underlying atomic add does), every other counter untouched.
pub open spec fn spec_counts_bumped(
    before: Map<Seq<char>, u64>,
    after: Map<Seq<char>, u64>,
    key: Seq<char>,
) -> bool {
    &&& after[key] == if before[key] == u64::MAX {
        0u64
    } else {
        (before[key] + 1) as u64
    }
    &&& forall|k: Seq<char>| k != key ==> #[trigger] after[k] == before[k]
}

/// Relies on IntCounterVec::with_label_values and GenericCounter::inc: adds
/// one to the counter stored under the concatenated label values (wrapping
/// at the integer bound, as the underlying atomic add does) and touches no
/// counter stored under any other text. Only the admissible texts are
/// admitted: the family looks children up by the 64-bit hash of the text
/// alone, so the frame holds because the eight admissible texts hash
/// pairwise distinctly and no other child ever exists.
#[verifier::external_body]
fn inc_focus_counter(m: &mut FocusMetrics, compositor: &str, result: &str)
    requires
        spec_admissible_focus_labels(compositor@, result@),
    ensures
        spec_counts_bumped(focus_counts(old(m)), focus_counts(final(m)), compositor@ + result@),
{
    m.counter.with_label_values(&[compositor, result]).inc();
}

/// Relies on IntCounterVec::get_metric_with_label_values and
/// GenericCounter::get: reads the counter stored under the concatenated
/// label values (zero if it was never incremented). Only the admissible
/// texts are admitted, for the reason given at `inc_focus_counter`.
#[verifier::external_body]
pub fn focus_counter_value(m: &FocusMetrics, compositor: &str, result: &str) -> (r: Option<u64>)
    requires
        spec_admissible_focus_labels(compositor@, result@),
    ensures
        r == Some(focus_counts(m)[compositor@ + result@]),
{
    m.counter
        .get_metric_with_label_values(&[compositor, result])
        .ok()
        .map(|metric| metric.get())
}

/// Relies on Registry::gather and TextEncoder::encode: renders the
/// registered counter family in the text exposition format. Before any
/// counter has been touched the family has no children, the gather prunes
/// it, and nothing is rendered; otherwise the rendered text carries the
/// family's name in its header and sample lines, each sample naming its
/// result label. Children are created only under the admissible texts, so
/// every sample's result value is one of the two result labels.
#[verifier::external_body]
pub fn gather_metrics(m: &FocusMetrics) -> (r: Option<String>)
    ensures
        (exists|k: Seq<char>| #[trigger] focus_counts(m)[k] != 0) ==> r is Some,
        r matches Some(text) ==> crate::strutil::spec_contains_seq(
            text@,
            "snips_window_focus_attempts_total"@,
        ),
        r matches Some(text) ==> crate::strutil::spec_contains_seq(text@, "result=\""@),
        r matches Some(text) ==> (crate::strutil::spec_contains_seq(text@, "result=\"success\""@)
            || crate::strutil::spec_contains_seq(text@, "result=\"failure\""@)),
{
    let metric_families = m.registry.gather();
    if metric_families.is_empty() {
        return None;
    }
    let encoder = prometheus::TextEncoder::new();
    let mut buffer = Vec::new();
    if prometheus::Encoder::encode(&encoder, &metric_families, &mut buffer).is_err() {
        return None;
    }
    String::from_utf8(buffer).ok()
}

/// Relies on MetricVec::reset: removes every child counter, so each one
/// reads zero again.
#[verifier::external_body]
pub fn reset_for_tests(m: &mut FocusMetrics)
    ensures
        forall|k: Seq<char>| #[trigger] focus_counts(final(m))[k] == 0u64,
{
    m.counter.reset();
}

/// The result label a focus outcome is counted under.
pub open spec fn spec_result_label(success: bool) -> Seq<char> {
    if success {
        "success"@
    } else {
        "failure"@
    }
}

/// Records one focus-attempt sequence in the counter family, keyed by the
/// compositor label (one of the four the detector can report) and the
/// outcome.
pub fn record_window_focus(m: &mut FocusMetrics, compositor: &str, success: bool)
    requires
        crate::compositor::spec_is_wm_label(compositor@),
    ensures
        spec_counts_bumped(
            focus_counts(old(m)),
            focus_counts(final(m)),
            compositor@ + spec_result_label(success),
        ),
{
    let label = if success {
        "success"
    } else {
        "failure"
    };
    inc_focus_counter(m, compositor, label);
}

} // verus!
