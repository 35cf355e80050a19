//! The comparisons made at each startup point, and the failures they report.
use vstd::prelude::*;

use crate::host::{lookup, lemma_lookup, MetricRegistry, PipelineSnapshot, RegisteredMetric};
use crate::naming::{name_set, same_names, ElementName};
use crate::startup::Metric;
use crate::units::{same_unit, PrefixedUnit, WrappedMeasurementType};

verus! {

/// The plugin of the source that runtime checks add to the pipeline themselves.
pub const TESTER_PLUGIN_NAME: &'static str = "_test_runtime_expectations";

/// The name of the source that runtime checks add to the pipeline themselves.
pub const TESTER_SOURCE_NAME: &'static str = "_tester";

/// The kinds of pipeline elements.
#[derive(Clone, Copy, Debug, PartialEq, Eq, Structural)]
pub enum ElementKind {
    Source,
    Transform,
    Output,
}

/// Why the host's state does not meet the expectations.
#[allow(inconsistent_fields)]
#[derive(Debug)]
pub enum StartupFailure {
    /// A lookup under `key` returned a definition named `found`.
    InconsistentRegistry { key: String, found: String },
    /// No metric is registered under this name.
    MissingMetric { name: String },
    /// The metric is registered with another unit.
    WrongUnit { name: String, expected: PrefixedUnit, actual: PrefixedUnit },
    /// The metric is registered with another value type.
    WrongType {
        name: String,
        expected: WrappedMeasurementType,
        actual: WrappedMeasurementType,
    },
    /// No initialized plugin has this name.
    MissingPlugin { name: String },
    /// The registered elements of a kind are not the declared ones.
    ElementsMismatch { kind: ElementKind, expected: Vec<ElementName>, actual: Vec<ElementName> },
}

/// The names of the elements of a sequence, in order.
pub open spec fn views(s: Seq<ElementName>) -> Seq<(Seq<char>, Seq<char>)> {
    s.map_values(|e: ElementName| e@)
}

/// The source that runtime checks add, which no test declares.
pub open spec fn tester_source() -> (Seq<char>, Seq<char>) {
    (TESTER_PLUGIN_NAME@, TESTER_SOURCE_NAME@)
}

/// The registry holds `m` as declared: found under its name, with a definition of
/// that name, the same unit and the same value type.
pub open spec fn metric_ok(m: Metric, entries: Seq<RegisteredMetric>) -> bool {
    match lookup(entries, m.name@) {
        Some(k) => {
            let d = entries[k].definition;
            d.name@ == m.name@ && same_unit(d.unit, m.unit) && d.value_type == m.value_type
        },
        None => false,
    }
}

/// `e` reports what is wrong with `m`: the first of a missing entry, a definition
/// under another name, another unit, another value type.
pub open spec fn reports_metric(e: StartupFailure, m: Metric, entries: Seq<RegisteredMetric>) -> bool {
    match lookup(entries, m.name@) {
        None => e matches StartupFailure::MissingMetric { name } && name@ == m.name@,
        Some(k) => {
            let d = entries[k].definition;
            if d.name@ != m.name@ {
                e matches StartupFailure::InconsistentRegistry { key, found } && key@ == m.name@
                    && found@ == d.name@
            } else if !same_unit(d.unit, m.unit) {
                e matches StartupFailure::WrongUnit { name, expected, actual } && name@ == m.name@
                    && expected == m.unit && actual == d.unit
            } else {
                e matches StartupFailure::WrongType { name, expected, actual } && name@ == m.name@
                    && expected == m.value_type && actual == d.value_type
            }
        },
    }
}

/// Every declared metric is held as declared.
pub open spec fn metrics_pass(ms: Seq<Metric>, entries: Seq<RegisteredMetric>) -> bool {
    forall|i: int| 0 <= i < ms.len() ==> metric_ok(#[trigger] ms[i], entries)
}

/// `ms[i]` is the first declared metric that is not held as declared.
pub open spec fn first_bad_metric(ms: Seq<Metric>, entries: Seq<RegisteredMetric>, i: int) -> bool {
    &&& 0 <= i < ms.len()
    &&& forall|j: int| 0 <= j < i ==> metric_ok(#[trigger] ms[j], entries)
    &&& !metric_ok(ms[i], entries)
}

/// `e` reports the first declared metric that is not held as declared.
pub open spec fn metric_failure_reported(
    ms: Seq<Metric>,
    entries: Seq<RegisteredMetric>,
    e: StartupFailure,
) -> bool {
    exists|i: int| first_bad_metric(ms, entries, i) && reports_metric(e, ms[i], entries)
}

/// A plugin named `p` is among the initialized ones.
pub open spec fn plugin_present(p: Seq<char>, initialized: Seq<String>) -> bool {
    exists|j: int| 0 <= j < initialized.len() && initialized[j]@ == p
}

/// Every declared plugin is among the initialized ones; others may be there too.
pub open spec fn plugins_pass(expected: Seq<String>, initialized: Seq<String>) -> bool {
    forall|i: int| 0 <= i < expected.len() ==> plugin_present(#[trigger] expected[i]@, initialized)
}

/// `e` names the first declared plugin that was not initialized.
pub open spec fn plugin_failure_reported(
    expected: Seq<String>,
    initialized: Seq<String>,
    e: StartupFailure,
) -> bool {
    exists|i: int|
        {
            &&& 0 <= i < expected.len()
            &&& forall|j: int| 0 <= j < i ==> plugin_present(#[trigger] expected[j]@, initialized)
            &&& !plugin_present(expected[i]@, initialized)
            &&& e matches StartupFailure::MissingPlugin { name } && name@ == expected[i]@
        }
}

/// The registered sources, but for the one that runtime checks add, are the declared
/// ones, and so are the transforms and the outputs, as sets of names.
pub open spec fn pipeline_pass(
    sources: Seq<ElementName>,
    transforms: Seq<ElementName>,
    outputs: Seq<ElementName>,
    snapshot: PipelineSnapshot,
) -> bool {
    &&& name_set(sources) == name_set(snapshot.sources@).remove(tester_source())
    &&& name_set(transforms) == name_set(snapshot.transforms@)
    &&& name_set(outputs) == name_set(snapshot.outputs@)
}

/// `e` reports a mismatch of the given kind, with the declared and the registered
/// names, each in order.
pub open spec fn reports_elements(
    e: StartupFailure,
    kind: ElementKind,
    expected: Seq<ElementName>,
    actual: Seq<(Seq<char>, Seq<char>)>,
) -> bool {
    e matches StartupFailure::ElementsMismatch { kind: k, expected: ex, actual: ac } && k == kind
        && views(ex@) == views(expected) && views(ac@) == actual
}

/// `e` reports the first kind of element, in the order sources, transforms, outputs,
/// whose registered names are not the declared ones.
pub open spec fn pipeline_failure_reported(
    sources: Seq<ElementName>,
    transforms: Seq<ElementName>,
    outputs: Seq<ElementName>,
    snapshot: PipelineSnapshot,
    e: StartupFailure,
) -> bool {
    if name_set(sources) != name_set(snapshot.sources@).remove(tester_source()) {
        reports_elements(e, ElementKind::Source, sources, drop_tester(views(snapshot.sources@)))
    } else if name_set(transforms) != name_set(snapshot.transforms@) {
        reports_elements(e, ElementKind::Transform, transforms, views(snapshot.transforms@))
    } else {
        reports_elements(e, ElementKind::Output, outputs, views(snapshot.outputs@))
    }
}

/// Checks the declared metrics against the registry, stopping at the first one that
/// is not held as declared.
pub fn check_metrics(expected: &Vec<Metric>, registry: &MetricRegistry) -> (r: Result<
    (),
    StartupFailure,
>)
    ensures
        r is Ok <==> metrics_pass(expected@, registry.entries@),
        r matches Err(e) ==> metric_failure_reported(expected@, registry.entries@, e),
{
    let ghost entries = registry.entries@;
    let mut i: usize = 0;
    while i < expected.len()
        invariant
            i <= expected.len(),
            entries == registry.entries@,
            forall|j: int| 0 <= j < i ==> metric_ok(#[trigger] expected@[j], entries),
        decreases expected.len() - i,
    {
        let m = &expected[i];
        proof {
            lemma_lookup(entries, m.name@);
        }
        match registry.by_name(&m.name) {
            None => {
                let e = StartupFailure::MissingMetric { name: m.name.clone() };
                assert(first_bad_metric(expected@, entries, i as int));
                return Err(e);
            },
            Some(k) => {
                let d = &registry.entries[k].definition;
                if d.name != m.name {
                    let e = StartupFailure::InconsistentRegistry {
                        key: m.name.clone(),
                        found: d.name.clone(),
                    };
                    assert(first_bad_metric(expected@, entries, i as int));
                    return Err(e);
                }
                if !d.unit.same_as(&m.unit) {
                    let e = StartupFailure::WrongUnit {
                        name: m.name.clone(),
                        expected: m.unit.duplicate(),
                        actual: d.unit.duplicate(),
                    };
                    assert(first_bad_metric(expected@, entries, i as int));
                    return Err(e);
                }
                if d.value_type != m.value_type {
                    let e = StartupFailure::WrongType {
                        name: m.name.clone(),
                        expected: m.value_type,
                        actual: d.value_type,
                    };
                    assert(first_bad_metric(expected@, entries, i as int));
                    return Err(e);
                }
            },
        }
        i = i + 1;
    }
    Ok(())
}

/// Whether a plugin named `name` is among `initialized`.
fn find_plugin(initialized: &Vec<String>, name: &String) -> (r: bool)
    ensures
        r == plugin_present(name@, initialized@),
{
    let mut j: usize = 0;
    while j < initialized.len()
        invariant
            j <= initialized.len(),
            forall|k: int| 0 <= k < j ==> initialized@[k]@ != name@,
        decreases initialized.len() - j,
    {
        if initialized[j] == *name {
            return true;
        }
        j = j + 1;
    }
    false
}

/// Checks that every declared plugin is among the initialized ones, stopping at the
/// first that is not. Plugins that were not declared are allowed.
pub fn check_plugins(expected: &Vec<String>, initialized: &Vec<String>) -> (r: Result<
    (),
    StartupFailure,
>)
    ensures
        r is Ok <==> plugins_pass(expected@, initialized@),
        r matches Err(e) ==> plugin_failure_reported(expected@, initialized@, e),
{
    let mut i: usize = 0;
    while i < expected.len()
        invariant
            i <= expected.len(),
            forall|j: int| 0 <= j < i ==> plugin_present(#[trigger] expected@[j]@, initialized@),
        decreases expected.len() - i,
    {
        if !find_plugin(initialized, &expected[i]) {
            let e = StartupFailure::MissingPlugin { name: expected[i].clone() };
            assert(!plugins_pass(expected@, initialized@));
            return Err(e);
        }
        i = i + 1;
    }
    Ok(())
}

/// Copies of the elements, with the same names in the same order.
pub fn duplicate_all(v: &Vec<ElementName>) -> (r: Vec<ElementName>)
    ensures
        views(r@) == views(v@),
{
    let mut r: Vec<ElementName> = Vec::new();
    let mut i: usize = 0;
    while i < v.len()
        invariant
            i <= v.len(),
            r@.len() == i,
            forall|j: int| 0 <= j < i ==> r@[j]@ == v@[j]@,
        decreases v.len() - i,
    {
        r.push(v[i].duplicate());
        i = i + 1;
    }
    assert(views(r@) =~= views(v@));
    r
}

/// The names of a sequence, in order, without the tester source.
pub open spec fn drop_tester(names: Seq<(Seq<char>, Seq<char>)>) -> Seq<(Seq<char>, Seq<char>)> {
    names.filter(|v: (Seq<char>, Seq<char>)| v != tester_source())
}

/// The registered sources without the one that runtime checks add, in their order.
pub fn without_tester_source(sources: Vec<ElementName>) -> (r: Vec<ElementName>)
    ensures
        views(r@) == drop_tester(views(sources@)),
        name_set(r@) == name_set(sources@).remove(tester_source()),
{
    let tester = ElementName::new(TESTER_PLUGIN_NAME.to_owned(), TESTER_SOURCE_NAME.to_owned());
    let mut r: Vec<ElementName> = Vec::new();
    let mut i: usize = 0;
    while i < sources.len()
        invariant
            i <= sources.len(),
            tester@ == tester_source(),
            name_set(r@) == name_set(sources@.subrange(0, i as int)).remove(tester_source()),
            views(r@) == drop_tester(views(sources@.subrange(0, i as int))),
        decreases sources.len() - i,
    {
        let ghost before = r@;
        let keep = !sources[i].same_as(&tester);
        if keep {
            r.push(sources[i].duplicate());
        }
        proof {
            let pre = sources@.subrange(0, i as int);
            let post = sources@.subrange(0, i + 1);
            assert(post =~= pre.push(sources@[i as int]));
            assert forall|v| name_set(post).contains(v) <==> name_set(pre).contains(v) || v == sources@[i as int]@ by {
                if name_set(post).contains(v) {
                    let j = choose|j: int| 0 <= j < post.len() && post[j]@ == v;
                    if j < i {
                        assert(pre[j] == post[j]);
                    }
                }
                if name_set(pre).contains(v) {
                    let j = choose|j: int| 0 <= j < pre.len() && pre[j]@ == v;
                    assert(post[j] == pre[j]);
                }
                if v == sources@[i as int]@ {
                    assert(post[i as int] == sources@[i as int]);
                }
            }
            assert forall|v| name_set(r@).contains(v) <==> name_set(before).contains(v) || (r@.len() > before.len() && v == sources@[i as int]@) by {
                if name_set(r@).contains(v) {
                    let j = choose|j: int| 0 <= j < r@.len() && r@[j]@ == v;
                    if j < before.len() {
                        assert(before[j] == r@[j]);
                    }
                }
                if name_set(before).contains(v) {
                    let j = choose|j: int| 0 <= j < before.len() && before[j]@ == v;
                    assert(r@[j] == before[j]);
                }
                if r@.len() > before.len() && v == sources@[i as int]@ {
                    assert(r@[before.len() as int]@ == v);
                }
            }
            assert(r@.len() > before.len() <==> keep);
            assert forall|v| name_set(r@).contains(v) <==> name_set(post).remove(tester_source()).contains(v) by {
                assert(name_set(r@).contains(v) <==> name_set(before).contains(v) || (r@.len()
                    > before.len() && v == sources@[i as int]@));
                assert(name_set(post).contains(v) <==> name_set(pre).contains(v) || v
                    == sources@[i as int]@);
                assert(name_set(before).contains(v) <==> name_set(pre).remove(
                    tester_source(),
                ).contains(v));
                assert(keep <==> sources@[i as int]@ != tester_source());
            }
            assert(name_set(r@) =~= name_set(post).remove(tester_source()));
            assert(views(post).drop_last() =~= views(pre));
            assert(views(post).last() == sources@[i as int]@);
            reveal(Seq::filter);
            assert(views(r@) =~= drop_tester(views(post)));
        }
        i = i + 1;
    }
    assert(sources@.subrange(0, sources.len() as int) =~= sources@);
    r
}

/// Checks that the registered elements of one kind are the declared ones, as sets
/// of names.
pub fn check_elements(kind: ElementKind, expected: &Vec<ElementName>, actual: Vec<ElementName>) -> (r:
    Result<(), StartupFailure>)
    ensures
        r is Ok <==> name_set(expected@) == name_set(actual@),
        r matches Err(e) ==> reports_elements(e, kind, expected@, views(actual@)),
{
    if same_names(expected, &actual) {
        Ok(())
    } else {
        Err(StartupFailure::ElementsMismatch { kind, expected: duplicate_all(expected), actual })
    }
}

/// Checks the registered sources, transforms and outputs against the declared ones,
/// stopping at the first kind that differs. The source that runtime checks add is
/// left out of the comparison.
pub fn check_elements_before_operation(
    sources: &Vec<ElementName>,
    transforms: &Vec<ElementName>,
    outputs: &Vec<ElementName>,
    snapshot: PipelineSnapshot,
) -> (r: Result<(), StartupFailure>)
    ensures
        r is Ok <==> pipeline_pass(sources@, transforms@, outputs@, snapshot),
        r matches Err(e) ==> pipeline_failure_reported(sources@, transforms@, outputs@, snapshot, e),
{
    let ghost snap = snapshot;
    let PipelineSnapshot { sources: actual_sources, transforms: actual_transforms, outputs: actual_outputs } = snapshot;
    let actual_sources = without_tester_source(actual_sources);
    check_elements(ElementKind::Source, sources, actual_sources)?;
    check_elements(ElementKind::Transform, transforms, actual_transforms)?;
    check_elements(ElementKind::Output, outputs, actual_outputs)
}

} // verus!
