//! Codex's OpenTelemetry layer, which is disabled: the provider builds no
//! exporter, and the metrics client accepts every measurement and records
//! nothing.

use vstd::prelude::*;

verus! {

#[verifier::external_type_specification]
#[verifier::external_body]
pub struct ExMetadata<'a>(tracing::Metadata<'a>);

#[verifier::external_type_specification]
#[verifier::external_body]
pub struct ExResourceMetrics(opentelemetry_sdk::metrics::data::ResourceMetrics);

/// Whether `tracing::Metadata::is_span` holds of the metadata: whether its
/// kind marks a span.
pub uninterp spec fn metadata_kind_is_span(meta: tracing::Metadata<'_>) -> bool;

/// Calls `tracing::Metadata::is_span`: whether the metadata describes a
/// span rather than an event, as its kind says.
#[verifier::external_body]
fn metadata_is_span(meta: &tracing::Metadata<'_>) -> (r: bool)
    ensures
        r == metadata_kind_is_span(*meta),
{
    meta.is_span()
}

/// An error of the metrics client.
#[derive(Clone, Copy, Debug, PartialEq, Eq)]
pub enum MetricsError {
    /// No runtime snapshot can be taken, since no exporter runs.
    RuntimeSnapshotUnavailable,
}

/// The configuration of the metrics exporter; the disabled client reads none
/// of it.
#[derive(Clone, Copy, Debug, Default)]
pub struct MetricsConfig {}

/// The configuration of the OpenTelemetry layer; the disabled provider reads
/// none of it.
#[derive(Clone, Copy, Debug, Default)]
pub struct OtelSettings {}

#[derive(Clone, Copy, Debug, Default)]
struct MetricsClientInner {}

/// OpenTelemetry metrics client used by Codex.
#[derive(Clone, Debug)]
pub struct MetricsClient(std::sync::Arc<MetricsClientInner>);

/// A running duration measurement.
#[derive(Debug)]
pub struct Timer {}

impl Timer {
    /// A new measurement.
    pub(crate) fn new() -> (r: Self)
        ensures
            r == (Timer {}),
    {
        Timer {}
    }

    /// Records the measurement with extra tags; always succeeds.
    pub fn record(&self, _additional_tags: &[(&str, &str)]) -> (r: Result<(), MetricsError>)
        ensures
            r is Ok,
    {
        Ok(())
    }
}

impl MetricsClient {
    /// Builds a metrics client from configuration; always succeeds.
    pub fn new(_config: MetricsConfig) -> (r: Result<Self, MetricsError>)
        ensures
            r is Ok,
    {
        Ok(Self(std::sync::Arc::new(MetricsClientInner {})))
    }

    /// Sends a single counter increment; always succeeds.
    pub fn counter(&self, _name: &str, _inc: i64, _tags: &[(&str, &str)]) -> (r: Result<
        (),
        MetricsError,
    >)
        ensures
            r is Ok,
    {
        Ok(())
    }

    /// Sends a single histogram sample; always succeeds.
    pub fn histogram(&self, _name: &str, _value: i64, _tags: &[(&str, &str)]) -> (r: Result<
        (),
        MetricsError,
    >)
        ensures
            r is Ok,
    {
        Ok(())
    }

    /// Records a duration in milliseconds using a histogram; always
    /// succeeds.
    pub fn record_duration(
        &self,
        _name: &str,
        _duration: std::time::Duration,
        _tags: &[(&str, &str)],
    ) -> (r: Result<(), MetricsError>)
        ensures
            r is Ok,
    {
        Ok(())
    }

    /// Starts a duration measurement; always succeeds.
    pub fn start_timer(&self, _name: &str, _tags: &[(&str, &str)]) -> (r: Result<
        Timer,
        MetricsError,
    >)
        ensures
            r is Ok,
    {
        Ok(Timer::new())
    }

    /// Collects a runtime metrics snapshot without shutting down the
    /// provider; no snapshot is ever available.
    pub fn snapshot(&self) -> (r: Result<
        opentelemetry_sdk::metrics::data::ResourceMetrics,
        MetricsError,
    >)
        ensures
            r matches Err(MetricsError::RuntimeSnapshotUnavailable),
    {
        Err(MetricsError::RuntimeSnapshotUnavailable)
    }

    /// Flushes metrics and stops the meter provider; always succeeds.
    pub fn shutdown(&self) -> (r: Result<(), MetricsError>)
        ensures
            r is Ok,
    {
        Ok(())
    }
}

/// An error in setting up the OpenTelemetry layer.
#[derive(Clone, Debug)]
pub struct OtelError {
    pub message: String,
}

/// The OpenTelemetry provider of Codex.
#[derive(Debug)]
pub struct OtelProvider {}

impl OtelProvider {
    /// Shuts the provider down; there is nothing to stop.
    pub fn shutdown(&self) {
    }

    /// Builds the provider from its settings: the exporter is disabled, so
    /// there is no provider.
    pub fn from(_settings: &OtelSettings) -> (r: Result<Option<Self>, OtelError>)
        ensures
            r matches Ok(None),
    {
        Ok(None)
    }

    /// Whether Codex's own export takes the event: only spans are exported.
    pub fn codex_export_filter(meta: &tracing::Metadata<'_>) -> (r: bool)
        ensures
            r == metadata_kind_is_span(*meta),
    {
        metadata_is_span(meta)
    }

    /// Whether the log export takes the event: only spans are exported.
    pub fn log_export_filter(meta: &tracing::Metadata<'_>) -> (r: bool)
        ensures
            r == metadata_kind_is_span(*meta),
    {
        metadata_is_span(meta)
    }

    /// Whether the trace export takes the event: only spans are exported.
    pub fn trace_export_filter(meta: &tracing::Metadata<'_>) -> (r: bool)
        ensures
            r == metadata_kind_is_span(*meta),
    {
        metadata_is_span(meta)
    }

    /// The metrics client: there is none.
    pub fn metrics(&self) -> (r: Option<&MetricsClient>)
        ensures
            r is None,
    {
        None
    }
}

} // verus!
