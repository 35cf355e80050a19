use alumet_startup::check::{
    check_elements, check_metrics, check_plugins, duplicate_all, without_tester_source,
    ElementKind, StartupFailure, TESTER_PLUGIN_NAME, TESTER_SOURCE_NAME,
};
use alumet_startup::host::{MetricDefinition, MetricRegistry, PipelineSnapshot, RegisteredMetric};
use alumet_startup::naming::{contains_name, covers, same_names, ElementName};
use alumet_startup::startup::{Metric, StartupExpectations};
use alumet_startup::units::{MeasurementType, PrefixedUnit, Unit, UnitPrefix, WrappedMeasurementType};

fn name(plugin: &str, element: &str) -> ElementName {
    ElementName::new(plugin.to_owned(), element.to_owned())
}

fn entry(key: &str, def_name: &str, unit: PrefixedUnit, value_type: WrappedMeasurementType) -> RegisteredMetric {
    RegisteredMetric {
        key: key.to_owned(),
        definition: MetricDefinition { name: def_name.to_owned(), unit, value_type },
    }
}

fn registry(entries: Vec<RegisteredMetric>) -> MetricRegistry {
    MetricRegistry { entries }
}

fn snapshot(sources: Vec<ElementName>, transforms: Vec<ElementName>, outputs: Vec<ElementName>) -> PipelineSnapshot {
    PipelineSnapshot { sources, transforms, outputs }
}

fn empty_snapshot() -> PipelineSnapshot {
    snapshot(vec![], vec![], vec![])
}

fn coffee() -> StartupExpectations {
    StartupExpectations::new().expect_metric::<u64>("coffee_counter", Unit::Unity.into())
}

#[test]
fn coffee_metric_registered_as_declared_passes() {
    let reg = registry(vec![entry("coffee_counter", "coffee_counter", Unit::Unity.into(), WrappedMeasurementType::U64)]);
    assert!(coffee().after_plugins_start(&reg).is_ok());
}

#[test]
fn coffee_metric_with_other_unit_fails_on_unit() {
    let reg = registry(vec![entry("coffee_counter", "coffee_counter", Unit::Second.into(), WrappedMeasurementType::U64)]);
    match coffee().after_plugins_start(&reg) {
        Err(StartupFailure::WrongUnit { name, expected, actual }) => {
            assert_eq!(name, "coffee_counter");
            assert!(expected.same_as(&Unit::Unity.into()));
            assert!(actual.same_as(&Unit::Second.into()));
        }
        other => panic!("unexpected outcome {:?}", other),
    }
}

#[test]
fn coffee_metric_with_other_prefix_fails_on_unit() {
    let unit = PrefixedUnit { prefix: UnitPrefix::Kilo, base_unit: Unit::Unity };
    let reg = registry(vec![entry("coffee_counter", "coffee_counter", unit, WrappedMeasurementType::U64)]);
    assert!(matches!(coffee().after_plugins_start(&reg), Err(StartupFailure::WrongUnit { .. })));
}

#[test]
fn coffee_metric_with_other_type_fails_on_type() {
    let reg = registry(vec![entry("coffee_counter", "coffee_counter", Unit::Unity.into(), WrappedMeasurementType::F64)]);
    match coffee().after_plugins_start(&reg) {
        Err(StartupFailure::WrongType { name, expected, actual }) => {
            assert_eq!(name, "coffee_counter");
            assert_eq!(expected, WrappedMeasurementType::U64);
            assert_eq!(actual, WrappedMeasurementType::F64);
        }
        other => panic!("unexpected outcome {:?}", other),
    }
}

#[test]
fn unregistered_metric_is_reported_missing() {
    let reg = registry(vec![entry("tea_counter", "tea_counter", Unit::Unity.into(), WrappedMeasurementType::U64)]);
    match coffee().after_plugins_start(&reg) {
        Err(StartupFailure::MissingMetric { name }) => assert_eq!(name, "coffee_counter"),
        other => panic!("unexpected outcome {:?}", other),
    }
}

#[test]
fn missing_metric_in_empty_registry() {
    let reg = registry(vec![]);
    assert!(matches!(coffee().after_plugins_start(&reg), Err(StartupFailure::MissingMetric { .. })));
}

#[test]
fn inconsistent_registry_is_reported() {
    let reg = registry(vec![entry("coffee_counter", "tea_counter", Unit::Unity.into(), WrappedMeasurementType::U64)]);
    match coffee().after_plugins_start(&reg) {
        Err(StartupFailure::InconsistentRegistry { key, found }) => {
            assert_eq!(key, "coffee_counter");
            assert_eq!(found, "tea_counter");
        }
        other => panic!("unexpected outcome {:?}", other),
    }
}

#[test]
fn lookup_uses_first_entry_under_a_key() {
    let reg = registry(vec![
        entry("coffee_counter", "coffee_counter", Unit::Watt.into(), WrappedMeasurementType::U64),
        entry("coffee_counter", "coffee_counter", Unit::Unity.into(), WrappedMeasurementType::U64),
    ]);
    assert_eq!(reg.by_name(&"coffee_counter".to_owned()), Some(0));
    assert!(matches!(coffee().after_plugins_start(&reg), Err(StartupFailure::WrongUnit { .. })));
}

#[test]
fn first_failing_metric_is_reported() {
    let exp = StartupExpectations::new()
        .expect_metric::<u64>("a", Unit::Joule.into())
        .expect_metric::<u64>("b", Unit::Joule.into())
        .expect_metric::<u64>("c", Unit::Joule.into());
    let reg = registry(vec![entry("a", "a", Unit::Joule.into(), WrappedMeasurementType::U64)]);
    match exp.after_plugins_start(&reg) {
        Err(StartupFailure::MissingMetric { name }) => assert_eq!(name, "b"),
        other => panic!("unexpected outcome {:?}", other),
    }
}

#[test]
fn untyped_metric_with_custom_unit() {
    let unit = |d: &str| PrefixedUnit {
        prefix: UnitPrefix::Plain,
        base_unit: Unit::Custom { unique_name: "cup".to_owned(), display_name: d.to_owned() },
    };
    let exp = StartupExpectations::new().expect_metric_untyped(Metric {
        name: "cups".to_owned(),
        value_type: WrappedMeasurementType::F64,
        unit: unit("cup"),
    });
    let good = registry(vec![entry("cups", "cups", unit("cup"), WrappedMeasurementType::F64)]);
    assert!(exp.after_plugins_start(&good).is_ok());
    let bad = registry(vec![entry("cups", "cups", unit("mug"), WrappedMeasurementType::F64)]);
    assert!(matches!(exp.after_plugins_start(&bad), Err(StartupFailure::WrongUnit { .. })));
}

#[test]
fn duplicate_metric_declaration_keeps_outcome() {
    let twice = coffee().expect_metric::<u64>("coffee_counter", Unit::Unity.into());
    let good = registry(vec![entry("coffee_counter", "coffee_counter", Unit::Unity.into(), WrappedMeasurementType::U64)]);
    assert!(twice.after_plugins_start(&good).is_ok());
    assert!(twice.after_plugins_start(&registry(vec![])).is_err());
}

#[test]
fn declared_plugins_present_with_extras_pass() {
    let exp = StartupExpectations::new().expect_plugin("rapl").expect_plugin("csv");
    let init = vec!["csv".to_owned(), "extra".to_owned(), "rapl".to_owned()];
    assert!(exp.after_plugins_init(&init).is_ok());
}

#[test]
fn missing_plugin_is_reported() {
    let exp = StartupExpectations::new().expect_plugin("rapl").expect_plugin("csv");
    let init = vec!["rapl".to_owned()];
    match exp.after_plugins_init(&init) {
        Err(StartupFailure::MissingPlugin { name }) => assert_eq!(name, "csv"),
        other => panic!("unexpected outcome {:?}", other),
    }
}

#[test]
fn duplicate_plugin_declaration_keeps_outcome() {
    let exp = StartupExpectations::new().expect_plugin("rapl").expect_plugin("rapl");
    assert!(exp.after_plugins_init(&vec!["rapl".to_owned()]).is_ok());
    assert!(exp.after_plugins_init(&vec!["csv".to_owned()]).is_err());
}

#[test]
fn extra_source_fails_exact_check() {
    let exp = StartupExpectations::new().expect_source("pluginA", "src1");
    let snap = snapshot(vec![name("pluginA", "src1"), name("pluginB", "src2")], vec![], vec![]);
    match exp.before_operation_begin(snap) {
        Err(StartupFailure::ElementsMismatch { kind, expected, actual }) => {
            assert_eq!(kind, ElementKind::Source);
            assert_eq!(expected.len(), 1);
            assert_eq!(actual.len(), 2);
        }
        other => panic!("unexpected outcome {:?}", other),
    }
}

#[test]
fn declared_elements_in_any_order_pass() {
    let exp = StartupExpectations::new()
        .expect_source("p", "s1")
        .expect_source("q", "s2")
        .expect_transform("p", "t")
        .expect_output("q", "o1")
        .expect_output("p", "o2");
    let snap = snapshot(
        vec![name("q", "s2"), name("p", "s1")],
        vec![name("p", "t")],
        vec![name("p", "o2"), name("q", "o1")],
    );
    assert!(exp.before_operation_begin(snap).is_ok());
}

#[test]
fn tester_source_is_ignored() {
    let exp = StartupExpectations::new().expect_source("p", "s");
    let snap = snapshot(vec![name(TESTER_PLUGIN_NAME, TESTER_SOURCE_NAME), name("p", "s")], vec![], vec![]);
    assert!(exp.before_operation_begin(snap).is_ok());
}

#[test]
fn tester_name_under_other_plugin_is_not_ignored() {
    let exp = StartupExpectations::new();
    let snap = snapshot(vec![name("p", TESTER_SOURCE_NAME)], vec![], vec![]);
    assert!(exp.before_operation_begin(snap).is_err());
}

#[test]
fn missing_declared_source_fails() {
    let exp = StartupExpectations::new().expect_source("p", "s");
    assert!(matches!(
        exp.before_operation_begin(empty_snapshot()),
        Err(StartupFailure::ElementsMismatch { kind: ElementKind::Source, .. })
    ));
}

#[test]
fn transform_mismatch_is_reported_as_transform() {
    let exp = StartupExpectations::new().expect_transform("p", "t");
    let snap = snapshot(vec![], vec![name("p", "other")], vec![]);
    assert!(matches!(
        exp.before_operation_begin(snap),
        Err(StartupFailure::ElementsMismatch { kind: ElementKind::Transform, .. })
    ));
}

#[test]
fn output_mismatch_is_reported_as_output() {
    let exp = StartupExpectations::new().expect_transform("p", "t");
    let snap = snapshot(vec![], vec![name("p", "t")], vec![name("p", "o")]);
    assert!(matches!(
        exp.before_operation_begin(snap),
        Err(StartupFailure::ElementsMismatch { kind: ElementKind::Output, .. })
    ));
}

#[test]
fn sources_are_checked_before_transforms() {
    let exp = StartupExpectations::new();
    let snap = snapshot(vec![name("p", "s")], vec![name("p", "t")], vec![]);
    assert!(matches!(
        exp.before_operation_begin(snap),
        Err(StartupFailure::ElementsMismatch { kind: ElementKind::Source, .. })
    ));
}

#[test]
fn duplicate_element_declaration_keeps_outcome() {
    let exp = StartupExpectations::new().expect_output("p", "o").expect_output("p", "o");
    let snap = snapshot(vec![], vec![], vec![name("p", "o")]);
    assert!(exp.before_operation_begin(snap).is_ok());
}

#[test]
fn nothing_declared_passes_on_empty_host() {
    let exp = StartupExpectations::new();
    let reg = registry(vec![entry("m", "m", Unit::Watt.into(), WrappedMeasurementType::F64)]);
    assert!(exp.after_plugins_start(&reg).is_ok());
    assert!(exp.after_plugins_init(&vec!["any".to_owned()]).is_ok());
    let snap = snapshot(vec![name(TESTER_PLUGIN_NAME, TESTER_SOURCE_NAME)], vec![], vec![]);
    assert!(exp.before_operation_begin(snap).is_ok());
}

#[test]
fn nothing_declared_fails_on_unplanned_output() {
    let exp = StartupExpectations::new();
    let snap = snapshot(vec![], vec![], vec![name("p", "o")]);
    assert!(matches!(
        exp.before_operation_begin(snap),
        Err(StartupFailure::ElementsMismatch { kind: ElementKind::Output, .. })
    ));
}

#[test]
fn element_name_accessors() {
    let n = name("plugin", "coffee_source");
    assert_eq!(n.plugin(), "plugin");
    assert_eq!(n.name(), "coffee_source");
    let d = n.duplicate();
    assert!(d.same_as(&n));
    assert!(!n.same_as(&name("plugin", "coffee_output")));
}

#[test]
fn name_set_helpers() {
    let a = vec![name("p", "x"), name("p", "y"), name("p", "x")];
    let b = vec![name("p", "y"), name("p", "x")];
    assert!(contains_name(&a, &name("p", "y")));
    assert!(!contains_name(&a, &name("q", "y")));
    assert!(covers(&a, &b));
    assert!(!covers(&b, &vec![name("p", "z")]));
    assert!(same_names(&a, &b));
    assert_eq!(duplicate_all(&a).len(), 3);
}

#[test]
fn tester_source_is_filtered_out() {
    let v = vec![name("p", "s"), name(TESTER_PLUGIN_NAME, TESTER_SOURCE_NAME), name("q", "s")];
    let r = without_tester_source(v);
    assert_eq!(r.len(), 2);
    assert!(r[0].same_as(&name("p", "s")));
    assert!(r[1].same_as(&name("q", "s")));
}

#[test]
fn free_check_functions() {
    let metrics = vec![Metric {
        name: "m".to_owned(),
        value_type: WrappedMeasurementType::U64,
        unit: Unit::Byte.into(),
    }];
    let reg = registry(vec![entry("m", "m", Unit::Byte.into(), WrappedMeasurementType::U64)]);
    assert!(check_metrics(&metrics, &reg).is_ok());
    assert!(check_plugins(&vec!["a".to_owned()], &vec!["b".to_owned()]).is_err());
    assert!(check_elements(ElementKind::Transform, &vec![name("p", "t")], vec![name("p", "t")]).is_ok());
}

#[test]
fn units_and_types() {
    assert_eq!(<u64 as MeasurementType>::wrapped_type(), WrappedMeasurementType::U64);
    let plain: PrefixedUnit = Unit::Volt.into();
    assert_eq!(plain.prefix, UnitPrefix::Plain);
    assert_eq!(Unit::Volt.code(), 4);
    assert!(Unit::Hertz.same_as(&Unit::Hertz));
    assert!(!Unit::Hertz.same_as(&Unit::Watt));
    let custom = Unit::Custom { unique_name: "a".to_owned(), display_name: "b".to_owned() };
    assert!(custom.same_as(&custom.duplicate()));
    assert!(!custom.same_as(&Unit::Unity));
}

#[test]
fn mismatch_report_lists_names_in_order() {
    let exp = StartupExpectations::new().expect_source("b", "y").expect_source("a", "x");
    let snap = snapshot(
        vec![name("c", "z"), name(TESTER_PLUGIN_NAME, TESTER_SOURCE_NAME), name("a", "x")],
        vec![],
        vec![],
    );
    match exp.before_operation_begin(snap) {
        Err(StartupFailure::ElementsMismatch { kind, expected, actual }) => {
            assert_eq!(kind, ElementKind::Source);
            assert_eq!(expected.len(), 2);
            assert!(expected[0].same_as(&name("b", "y")));
            assert!(expected[1].same_as(&name("a", "x")));
            assert_eq!(actual.len(), 2);
            assert!(actual[0].same_as(&name("c", "z")));
            assert!(actual[1].same_as(&name("a", "x")));
        }
        other => panic!("unexpected outcome {:?}", other),
    }
}
