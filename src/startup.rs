//! The set of expectations on the host's startup state, and the checks that
//! run at each of the three startup points.
use vstd::prelude::*;

use crate::check::{
    check_elements_before_operation, check_metrics, check_plugins, metric_failure_reported,
    metrics_pass, pipeline_failure_reported, pipeline_pass, plugin_failure_reported, plugins_pass,
    StartupFailure,
};
use crate::host::{MetricRegistry, PipelineSnapshot};
use crate::naming::{ElementName, OutputName, SourceName, TransformName};
use crate::units::{MeasurementType, PrefixedUnit, WrappedMeasurementType};

verus! {

/// A metric that the host must have registered.
#[derive(Debug)]
pub struct Metric {
    pub name: String,
    pub value_type: WrappedMeasurementType,
    pub unit: PrefixedUnit,
}

/// The state that a test expects of the host once it has started.
///
/// The test declares what it expects; the host then runs the checks at the
/// right points of its startup:
/// - after the plugins have started, the declared metrics are looked up;
/// - after the plugins have been initialized, the declared plugins must be among them;
/// - before the pipeline begins to operate, the registered sources, transforms and
///   outputs must be exactly the declared ones.
pub struct StartupExpectations {
    /// Expected metrics.
    metrics: Vec<Metric>,
    /// Expected plugins.
    plugins: Vec<String>,
    /// Expected sources.
    sources: Vec<SourceName>,
    /// Expected transforms.
    transforms: Vec<TransformName>,
    /// Expected outputs.
    outputs: Vec<OutputName>,
}

impl StartupExpectations {
    /// The declared metrics, in order of declaration.
    pub closed spec fn metric_list(&self) -> Seq<Metric> {
        self.metrics@
    }

    /// The declared plugin names.
    pub closed spec fn plugin_list(&self) -> Seq<String> {
        self.plugins@
    }

    /// The declared sources.
    pub closed spec fn source_list(&self) -> Seq<ElementName> {
        self.sources@
    }

    /// The declared transforms.
    pub closed spec fn transform_list(&self) -> Seq<ElementName> {
        self.transforms@
    }

    /// The declared outputs.
    pub closed spec fn output_list(&self) -> Seq<ElementName> {
        self.outputs@
    }

    /// An expectation set with nothing declared.
    pub fn new() -> (r: StartupExpectations)
        ensures
            r.metric_list().len() == 0,
            r.plugin_list().len() == 0,
            r.source_list().len() == 0,
            r.transform_list().len() == 0,
            r.output_list().len() == 0,
    {
        StartupExpectations {
            metrics: Vec::new(),
            plugins: Vec::new(),
            sources: Vec::new(),
            transforms: Vec::new(),
            outputs: Vec::new(),
        }
    }

    /// Requires the given metric to be registered before the pipeline starts.
    pub fn expect_metric_untyped(self, metric: Metric) -> (r: StartupExpectations)
        ensures
            r.metric_list() == self.metric_list().push(metric),
            r.plugin_list() == self.plugin_list(),
            r.source_list() == self.source_list(),
            r.transform_list() == self.transform_list(),
            r.output_list() == self.output_list(),
    {
        let mut s = self;
        s.metrics.push(metric);
        s
    }

    /// Requires a metric named `name`, with values of type `T` and the given unit,
    /// to be registered before the pipeline starts.
    pub fn expect_metric<T: MeasurementType>(self, name: &str, unit: PrefixedUnit) -> (r:
        StartupExpectations)
        ensures
            r.metric_list().len() == self.metric_list().len() + 1,
            r.metric_list().drop_last() == self.metric_list(),
            r.metric_list().last().name@ == name@,
            r.metric_list().last().value_type == T::measurement_kind(),
            r.metric_list().last().unit == unit,
            r.plugin_list() == self.plugin_list(),
            r.source_list() == self.source_list(),
            r.transform_list() == self.transform_list(),
            r.output_list() == self.output_list(),
    {
        let metric = Metric { name: name.to_owned(), value_type: T::wrapped_type(), unit };
        let r = self.expect_metric_untyped(metric);
        assert(r.metric_list().drop_last() =~= self.metric_list());
        r
    }

    /// Requires a plugin named `plugin_name` to be initialized.
    pub fn expect_plugin(self, plugin_name: &str) -> (r: StartupExpectations)
        ensures
            r.plugin_list().len() == self.plugin_list().len() + 1,
            r.plugin_list().drop_last() == self.plugin_list(),
            r.plugin_list().last()@ == plugin_name@,
            r.metric_list() == self.metric_list(),
            r.source_list() == self.source_list(),
            r.transform_list() == self.transform_list(),
            r.output_list() == self.output_list(),
    {
        let mut s = self;
        s.plugins.push(plugin_name.to_owned());
        assert(s.plugins@.drop_last() =~= self.plugins@);
        s
    }

    /// Requires a source to exist before the pipeline starts.
    pub fn expect_source(self, plugin_name: &str, source_name: &str) -> (r: StartupExpectations)
        ensures
            r.source_list().len() == self.source_list().len() + 1,
            r.source_list().drop_last() == self.source_list(),
            r.source_list().last()@ == (plugin_name@, source_name@),
            r.metric_list() == self.metric_list(),
            r.plugin_list() == self.plugin_list(),
            r.transform_list() == self.transform_list(),
            r.output_list() == self.output_list(),
    {
        let mut s = self;
        s.sources.push(SourceName::new(plugin_name.to_owned(), source_name.to_owned()));
        assert(s.sources@.drop_last() =~= self.sources@);
        s
    }

    /// Requires a transform to exist before the pipeline starts.
    pub fn expect_transform(self, plugin_name: &str, transform_name: &str) -> (r:
        StartupExpectations)
        ensures
            r.transform_list().len() == self.transform_list().len() + 1,
            r.transform_list().drop_last() == self.transform_list(),
            r.transform_list().last()@ == (plugin_name@, transform_name@),
            r.metric_list() == self.metric_list(),
            r.plugin_list() == self.plugin_list(),
            r.source_list() == self.source_list(),
            r.output_list() == self.output_list(),
    {
        let mut s = self;
        s.transforms.push(TransformName::new(plugin_name.to_owned(), transform_name.to_owned()));
        assert(s.transforms@.drop_last() =~= self.transforms@);
        s
    }

    /// Requires an output to exist before the pipeline starts.
    pub fn expect_output(self, plugin_name: &str, output_name: &str) -> (r: StartupExpectations)
        ensures
            r.output_list().len() == self.output_list().len() + 1,
            r.output_list().drop_last() == self.output_list(),
            r.output_list().last()@ == (plugin_name@, output_name@),
            r.metric_list() == self.metric_list(),
            r.plugin_list() == self.plugin_list(),
            r.source_list() == self.source_list(),
            r.transform_list() == self.transform_list(),
    {
        let mut s = self;
        s.outputs.push(OutputName::new(plugin_name.to_owned(), output_name.to_owned()));
        assert(s.outputs@.drop_last() =~= self.outputs@);
        s
    }

    /// The check to run once the plugins have started: each declared metric is
    /// looked up in the registry and must have the declared unit and value type.
    pub fn after_plugins_start(&self, registry: &MetricRegistry) -> (r: Result<(), StartupFailure>)
        ensures
            r is Ok <==> metrics_pass(self.metric_list(), registry.entries@),
            r matches Err(e) ==> metric_failure_reported(self.metric_list(), registry.entries@, e),
    {
        check_metrics(&self.metrics, registry)
    }

    /// The check to run once the plugins are initialized: each declared plugin must
    /// be among `initialized`, the names of the initialized plugins.
    pub fn after_plugins_init(&self, initialized: &Vec<String>) -> (r: Result<(), StartupFailure>)
        ensures
            r is Ok <==> plugins_pass(self.plugin_list(), initialized@),
            r matches Err(e) ==> plugin_failure_reported(self.plugin_list(), initialized@, e),
    {
        check_plugins(&self.plugins, initialized)
    }

    /// The check to run before the pipeline begins to operate: the registered
    /// sources, transforms and outputs must be exactly the declared ones.
    pub fn before_operation_begin(&self, snapshot: PipelineSnapshot) -> (r: Result<
        (),
        StartupFailure,
    >)
        ensures
            r is Ok <==> pipeline_pass(
                self.source_list(),
                self.transform_list(),
                self.output_list(),
                snapshot,
            ),
            r matches Err(e) ==> pipeline_failure_reported(
                self.source_list(),
                self.transform_list(),
                self.output_list(),
                snapshot,
                e,
            ),
    {
        check_elements_before_operation(&self.sources, &self.transforms, &self.outputs, snapshot)
    }
}

} // verus!
