//! Properties of the checks that hold for every expectation set and host state.
use vstd::prelude::*;

use crate::check::{
    metric_failure_reported, metric_ok, metrics_pass, pipeline_pass, plugin_present,
    plugins_pass, tester_source, StartupFailure,
};
use crate::host::{lookup, PipelineSnapshot, RegisteredMetric};
use crate::naming::{name_set, ElementName};
use crate::startup::Metric;
use crate::units::same_unit;

verus! {

/// A declared metric that no registry entry holds makes the metric check fail, and
/// when every metric declared before it is held, the failure names it as missing.
pub proof fn lemma_missing_metric_fails(
    ms: Seq<Metric>,
    entries: Seq<RegisteredMetric>,
    i: int,
    e: StartupFailure,
)
    requires
        0 <= i < ms.len(),
        lookup(entries, ms[i].name@) is None,
    ensures
        !metrics_pass(ms, entries),
        (forall|j: int| 0 <= j < i ==> metric_ok(#[trigger] ms[j], entries))
            && metric_failure_reported(ms, entries, e) ==> (e matches StartupFailure::MissingMetric {
            name,
        } && name@ == ms[i].name@),
{
    assert(!metric_ok(ms[i], entries));
    if (forall|j: int| 0 <= j < i ==> metric_ok(#[trigger] ms[j], entries))
        && metric_failure_reported(ms, entries, e) {
        let f = choose|f: int|
            crate::check::first_bad_metric(ms, entries, f) && crate::check::reports_metric(
                e,
                ms[f],
                entries,
            );
        if f < i {
            assert(metric_ok(ms[f], entries));
        }
        if f > i {
            assert(metric_ok(ms[i], entries));
        }
    }
}

/// The metric check passes when the registry finds each declared metric under its
/// name with a definition of the same name, unit and value type.
pub proof fn lemma_exact_metrics_pass(ms: Seq<Metric>, entries: Seq<RegisteredMetric>)
    requires
        forall|i: int|
            0 <= i < ms.len() ==> ((#[trigger] lookup(entries, ms[i].name@)) matches Some(k)
                && entries[k].definition.name@ == ms[i].name@ && same_unit(
                entries[k].definition.unit,
                ms[i].unit,
            ) && entries[k].definition.value_type == ms[i].value_type),
    ensures
        metrics_pass(ms, entries),
{
    assert forall|i: int| 0 <= i < ms.len() implies metric_ok(#[trigger] ms[i], entries) by {
        assert(lookup(entries, ms[i].name@) is Some);
    }
}

/// The plugin check passes exactly when each declared plugin is among the initialized
/// ones; plugins that were initialized but not declared, before or after them in the
/// list, never make it fail.
pub proof fn lemma_plugins_subset(
    expected: Seq<String>,
    initialized: Seq<String>,
    extra: Seq<String>,
)
    ensures
        plugins_pass(expected, initialized) <==> forall|i: int|
            0 <= i < expected.len() ==> plugin_present(#[trigger] expected[i]@, initialized),
        plugins_pass(expected, initialized) ==> plugins_pass(expected, initialized + extra),
        plugins_pass(expected, initialized) ==> plugins_pass(expected, extra + initialized),
{
    if plugins_pass(expected, initialized) {
        assert forall|i: int| 0 <= i < expected.len() implies plugin_present(
            #[trigger] expected[i]@,
            initialized + extra,
        ) by {
            let j = choose|j: int| 0 <= j < initialized.len() && initialized[j]@ == expected[i]@;
            assert((initialized + extra)[j] == initialized[j]);
        }
        assert forall|i: int| 0 <= i < expected.len() implies plugin_present(
            #[trigger] expected[i]@,
            extra + initialized,
        ) by {
            let j = choose|j: int| 0 <= j < initialized.len() && initialized[j]@ == expected[i]@;
            assert((extra + initialized)[extra.len() + j] == initialized[j]);
        }
    }
}

/// The element check passes exactly when the registered names, leaving out the
/// tester source, are the declared ones as sets; so neither the order of the lists
/// nor repeated names change its outcome.
pub proof fn lemma_pipeline_set_equality(
    sources: Seq<ElementName>,
    transforms: Seq<ElementName>,
    outputs: Seq<ElementName>,
    a: PipelineSnapshot,
    b: PipelineSnapshot,
)
    requires
        name_set(a.sources@) == name_set(b.sources@),
        name_set(a.transforms@) == name_set(b.transforms@),
        name_set(a.outputs@) == name_set(b.outputs@),
    ensures
        pipeline_pass(sources, transforms, outputs, a) <==> {
            &&& name_set(sources) == name_set(a.sources@).remove(tester_source())
            &&& name_set(transforms) == name_set(a.transforms@)
            &&& name_set(outputs) == name_set(a.outputs@)
        },
        pipeline_pass(sources, transforms, outputs, a) == pipeline_pass(
            sources,
            transforms,
            outputs,
            b,
        ),
{
}

/// Declaring a metric that is already declared does not change the outcome of the
/// metric check.
pub proof fn lemma_repeated_metric(ms: Seq<Metric>, entries: Seq<RegisteredMetric>, k: int)
    requires
        0 <= k < ms.len(),
    ensures
        metrics_pass(ms.push(ms[k]), entries) == metrics_pass(ms, entries),
{
    let ms2 = ms.push(ms[k]);
    if metrics_pass(ms, entries) {
        assert forall|i: int| 0 <= i < ms2.len() implies metric_ok(#[trigger] ms2[i], entries) by {
            if i < ms.len() {
                assert(ms2[i] == ms[i]);
            } else {
                assert(ms2[i] == ms[k]);
            }
        }
    }
    if metrics_pass(ms2, entries) {
        assert forall|i: int| 0 <= i < ms.len() implies metric_ok(#[trigger] ms[i], entries) by {
            assert(ms2[i] == ms[i]);
        }
    }
}

/// Declaring a plugin that is already declared does not change the outcome of the
/// plugin check.
pub proof fn lemma_repeated_plugin(expected: Seq<String>, initialized: Seq<String>, k: int)
    requires
        0 <= k < expected.len(),
    ensures
        plugins_pass(expected.push(expected[k]), initialized) == plugins_pass(expected, initialized),
{
    let e2 = expected.push(expected[k]);
    if plugins_pass(expected, initialized) {
        assert forall|i: int| 0 <= i < e2.len() implies plugin_present(
            #[trigger] e2[i]@,
            initialized,
        ) by {
            if i < expected.len() {
                assert(e2[i] == expected[i]);
            } else {
                assert(e2[i] == expected[k]);
            }
        }
    }
    if plugins_pass(e2, initialized) {
        assert forall|i: int| 0 <= i < expected.len() implies plugin_present(
            #[trigger] expected[i]@,
            initialized,
        ) by {
            assert(e2[i] == expected[i]);
        }
    }
}

/// Declaring an element that is already declared does not change the declared set
/// of names, and so not the outcome of the element check.
pub proof fn lemma_repeated_element(names: Seq<ElementName>, k: int)
    requires
        0 <= k < names.len(),
    ensures
        name_set(names.push(names[k])) == name_set(names),
{
    let n2 = names.push(names[k]);
    assert forall|v| name_set(n2).contains(v) <==> name_set(names).contains(v) by {
        if name_set(n2).contains(v) {
            let j = choose|j: int| 0 <= j < n2.len() && n2[j]@ == v;
            if j < names.len() {
                assert(names[j] == n2[j]);
            } else {
                assert(names[k] == n2[j]);
            }
        }
        if name_set(names).contains(v) {
            let j = choose|j: int| 0 <= j < names.len() && names[j]@ == v;
            assert(n2[j] == names[j]);
        }
    }
    assert(name_set(n2) =~= name_set(names));
}

/// With nothing declared, the metric and plugin checks pass whatever the host holds,
/// and the element check passes exactly when the host registered no element but the
/// tester source.
pub proof fn lemma_nothing_declared(
    entries: Seq<RegisteredMetric>,
    initialized: Seq<String>,
    snapshot: PipelineSnapshot,
)
    ensures
        metrics_pass(Seq::empty(), entries),
        plugins_pass(Seq::empty(), initialized),
        pipeline_pass(Seq::empty(), Seq::empty(), Seq::empty(), snapshot) <==> {
            &&& name_set(snapshot.sources@).remove(tester_source()) == Set::<(Seq<char>, Seq<char>)>::empty()
            &&& snapshot.transforms@.len() == 0
            &&& snapshot.outputs@.len() == 0
        },
{
    let none = Seq::<ElementName>::empty();
    assert(name_set(none) =~= Set::empty());
    if snapshot.transforms@.len() > 0 {
        assert(name_set(snapshot.transforms@).contains(snapshot.transforms@[0]@));
    }
    if snapshot.outputs@.len() > 0 {
        assert(name_set(snapshot.outputs@).contains(snapshot.outputs@[0]@));
    }
    if snapshot.transforms@.len() == 0 {
        assert(name_set(snapshot.transforms@) =~= Set::empty());
    }
    if snapshot.outputs@.len() == 0 {
        assert(name_set(snapshot.outputs@) =~= Set::empty());
    }
}

} // verus!
