use tracebuild::pipeline::MetricsExporterPlan;
use tracebuild::pipeline::MetricsUninstall;
use tracebuild::pipeline::Pipeline;
use tracebuild::pipeline::PipelineConfig;
use tracebuild::pipeline::PipelineError;
use tracebuild::pipeline::PipelineState;
use tracebuild::pipeline::TraceExporterPlan;
use tracebuild::pipeline::Uninstall;
use tracebuild::pipeline::install_fallback_pipeline;
use tracebuild::pipeline::install_pipeline;
use tracebuild::pipeline::set_global_prometheus_exporter;
use tracebuild::pipeline::try_install_prometheus_metrics_pipeline;

fn empty_config() -> PipelineConfig {
    PipelineConfig {
        traces_exporter: None,
        metrics_exporter: None,
        otlp_traces_endpoint: None,
        otlp_metrics_endpoint: None,
        otlp_endpoint: None,
        prometheus_host: None,
        prometheus_port: None,
    }
}

#[test]
fn default_configuration_chooses_otlp_with_default_endpoint() {
    let p = install_pipeline(&empty_config(), None);
    assert_eq!(p.state, PipelineState::Installed);
    match &p.traces {
        TraceExporterPlan::Otlp { endpoint } => assert_eq!(endpoint, "https://localhost:4317"),
        other => panic!("unexpected trace plan: {:?}", other),
    }
    match &p.metrics {
        MetricsExporterPlan::Otlp { endpoint } => assert_eq!(endpoint, "https://localhost:4317"),
        other => panic!("unexpected metrics plan: {:?}", other),
    }
}

#[test]
fn endpoint_overrides_prefer_the_specific_setting() {
    let mut cfg = empty_config();
    cfg.otlp_endpoint = Some("https://collector:4317".to_string());
    cfg.otlp_traces_endpoint = Some("https://traces:4317".to_string());
    let p = install_pipeline(&cfg, None);
    match &p.traces {
        TraceExporterPlan::Otlp { endpoint } => assert_eq!(endpoint, "https://traces:4317"),
        other => panic!("unexpected trace plan: {:?}", other),
    }
    // Metrics has no specific override here, so the shared one applies.
    match &p.metrics {
        MetricsExporterPlan::Otlp { endpoint } => assert_eq!(endpoint, "https://collector:4317"),
        other => panic!("unexpected metrics plan: {:?}", other),
    }
}

#[test]
fn unsupported_exporter_name_installs_working_fallback() {
    let mut cfg = empty_config();
    cfg.traces_exporter = Some("zipkin".to_string());
    let p = install_pipeline(&cfg, None);
    // No error reaches the caller; the pipeline works and is the fallback.
    assert_eq!(p.state, PipelineState::Installed);
    assert_eq!(p.traces, TraceExporterPlan::Stdout);
    assert_eq!(p.metrics, MetricsExporterPlan::Stdout);
}

#[test]
fn unsupported_names_are_reported_for_logging() {
    let mut p = Pipeline::new();
    let mut cfg = empty_config();
    cfg.traces_exporter = Some("zipkin".to_string());
    match p.begin_install(&cfg) {
        Err(PipelineError::UnsupportedTracesExporter(n)) => assert_eq!(n, "zipkin"),
        other => panic!("expected an unsupported-traces error, got {:?}", other),
    }
    assert_eq!(
        PipelineError::UnsupportedTracesExporter("zipkin".to_string()).message(),
        "Unsupported traces exporter zipkin. Supported are: otlp, jaeger, stdout"
    );

    let mut p = Pipeline::new();
    let mut cfg = empty_config();
    cfg.metrics_exporter = Some("statsd".to_string());
    match p.begin_install(&cfg) {
        Err(PipelineError::UnsupportedMetricsExporter(n)) => assert_eq!(n, "statsd"),
        other => panic!("expected an unsupported-metrics error, got {:?}", other),
    }
}

#[test]
fn backend_build_failure_falls_back() {
    let mut cfg = empty_config();
    cfg.traces_exporter = Some("jaeger".to_string());
    let failure = PipelineError::TraceError("agent unreachable".to_string());
    assert_eq!(failure.message(), "Trace pipeline failed: agent unreachable");
    let p = install_pipeline(&cfg, Some(failure));
    assert_eq!(p.state, PipelineState::Installed);
    assert_eq!(p.traces, TraceExporterPlan::Stdout);
    assert_eq!(p.metrics, MetricsExporterPlan::Stdout);
}

#[test]
fn named_exporters_are_chosen() {
    let mut cfg = empty_config();
    cfg.traces_exporter = Some("jaeger".to_string());
    cfg.metrics_exporter = Some("none".to_string());
    let p = install_pipeline(&cfg, None);
    assert_eq!(p.traces, TraceExporterPlan::Jaeger);
    assert_eq!(p.metrics, MetricsExporterPlan::Stdout);

    let mut cfg = empty_config();
    cfg.traces_exporter = Some("none".to_string());
    cfg.metrics_exporter = Some("prometheus".to_string());
    let p = install_pipeline(&cfg, None);
    assert_eq!(p.traces, TraceExporterPlan::Stdout);
    match &p.metrics {
        MetricsExporterPlan::Prometheus { endpoint } => assert_eq!(endpoint, "0.0.0.0:9464"),
        other => panic!("unexpected metrics plan: {:?}", other),
    }
}

#[test]
fn prometheus_endpoint_uses_configured_host_and_port() {
    let plan = try_install_prometheus_metrics_pipeline(
        &Some("push.example".to_string()),
        &Some("9999".to_string()),
    );
    match plan {
        MetricsExporterPlan::Prometheus { endpoint } => assert_eq!(endpoint, "push.example:9999"),
        other => panic!("unexpected metrics plan: {:?}", other),
    }
}

#[test]
fn shutdown_yields_flush_actions_exactly_once() {
    let mut cfg = empty_config();
    cfg.metrics_exporter = Some("prometheus".to_string());
    let mut p = install_pipeline(&cfg, None);
    assert!(!p.is_shut_down());
    let actions = p.shutdown().expect("first shutdown must yield the actions");
    assert_eq!(actions.0, Uninstall::Otlp);
    assert_eq!(actions.1, MetricsUninstall::Pull("0.0.0.0:9464".to_string()));
    assert!(p.is_shut_down());
    // The flush happens exactly once: a second shutdown yields nothing.
    assert_eq!(p.shutdown(), None);
    assert!(p.is_shut_down());
}

#[test]
fn shutdown_of_a_never_installed_pipeline_is_a_safe_no_op() {
    let mut p = Pipeline::new();
    assert_eq!(p.shutdown(), None);
    assert!(p.is_shut_down());
    let mut p = install_fallback_pipeline();
    let actions = p.shutdown().unwrap();
    assert_eq!(actions.0, Uninstall::Stdout);
    assert_eq!(actions.1, MetricsUninstall::Stdout);
}

#[test]
fn prometheus_registration_hands_back_the_previous_target() {
    let mut p = install_fallback_pipeline();
    assert_eq!(set_global_prometheus_exporter(&mut p, Some("gw:9091".to_string())), None);
    match &p.metrics {
        MetricsExporterPlan::Prometheus { endpoint } => assert_eq!(endpoint, "gw:9091"),
        other => panic!("unexpected metrics plan: {:?}", other),
    }
    // Clearing the registration returns the target so the owner flushes it.
    assert_eq!(set_global_prometheus_exporter(&mut p, None), Some("gw:9091".to_string()));
    assert_eq!(p.metrics, MetricsExporterPlan::Stdout);
}
