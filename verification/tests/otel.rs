use codex_anthropic::otel::{MetricsClient, MetricsConfig, MetricsError, OtelProvider, OtelSettings};
use std::time::Duration;

#[test]
fn metrics_client_accepts_everything() {
    let client = MetricsClient::new(MetricsConfig::default()).expect("client");
    assert!(client.counter("requests", 1, &[("provider", "anthropic")]).is_ok());
    assert!(client.histogram("latency", 42, &[]).is_ok());
    assert!(client
        .record_duration("latency", Duration::from_millis(5), &[("a", "b")])
        .is_ok());
    let timer = client.start_timer("op", &[]).expect("timer");
    assert!(timer.record(&[("k", "v")]).is_ok());
    assert!(client.shutdown().is_ok());
}

#[test]
fn metrics_snapshot_is_unavailable() {
    let client = MetricsClient::new(MetricsConfig::default()).expect("client");
    match client.snapshot() {
        Err(e) => assert_eq!(e, MetricsError::RuntimeSnapshotUnavailable),
        Ok(_) => panic!("no snapshot should be available"),
    }
}

#[test]
fn otel_provider_is_disabled() {
    let provider = OtelProvider::from(&OtelSettings::default()).expect("settings accepted");
    assert!(provider.is_none());
}

struct UnregisteredCallsite;

impl tracing::callsite::Callsite for UnregisteredCallsite {
    fn set_interest(&self, _interest: tracing::subscriber::Interest) {}

    fn metadata(&self) -> &tracing::Metadata<'_> {
        panic!("the test callsite holds no metadata")
    }
}

fn test_metadata(kind: tracing::metadata::Kind) -> tracing::Metadata<'static> {
    let callsite: &'static UnregisteredCallsite = Box::leak(Box::new(UnregisteredCallsite));
    tracing::Metadata::new(
        "test",
        "codex_otel_test",
        tracing::Level::INFO,
        None,
        None,
        None,
        tracing::field::FieldSet::new(&[], tracing::callsite::Identifier(callsite)),
        kind,
    )
}

#[test]
fn export_filters_take_spans_only() {
    let span = test_metadata(tracing::metadata::Kind::SPAN);
    let event = test_metadata(tracing::metadata::Kind::EVENT);
    assert!(OtelProvider::codex_export_filter(&span));
    assert!(OtelProvider::log_export_filter(&span));
    assert!(OtelProvider::trace_export_filter(&span));
    assert!(!OtelProvider::codex_export_filter(&event));
    assert!(!OtelProvider::log_export_filter(&event));
    assert!(!OtelProvider::trace_export_filter(&event));
}

#[test]
fn otel_provider_has_no_metrics_client() {
    let provider = OtelProvider {};
    assert!(provider.metrics().is_none());
    provider.shutdown();
}
