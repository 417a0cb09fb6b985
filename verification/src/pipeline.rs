//! The telemetry pipeline: exporter selection, fallback, and teardown.
//!
//! Configuration names a trace exporter (OTLP, Jaeger, or the local no-op
//! "none") and a metrics exporter (OTLP, a Prometheus push gateway, or
//! "none"), with per-backend endpoint overrides.  An unrecognized name, or
//! a backend that fails to build, never surfaces to the caller: the
//! pipeline falls back to the guaranteed-to-succeed local variant, because
//! telemetry failures must never abort the instrumented build.
//!
//! The pipeline is an explicit value with an explicit life cycle
//! (uninitialized, installing, installed, shut down) instead of ambient
//! process-global state; [`Pipeline::shutdown`] hands the owner the
//! release/flush actions exactly once.

use vstd::prelude::*;
use vstd::string::StrSliceExecFns;
use vstd::string::StringExecFns;

use crate::text::ascii_alphanumeric;
use crate::text::ascii_digit;
use crate::text::is_ascii_alphanumeric_char;
use crate::text::is_ascii_digit_char;
use crate::text::push_char;
use crate::text::str_eq;

verus! {

/// Configuration for one invocation, read once from the environment by the
/// caller and handed in as plain values.
#[derive(Debug)]
pub struct PipelineConfig {
    /// `OTEL_TRACES_EXPORTER`: `otlp` (the default), `jaeger` or `none`.
    pub traces_exporter: Option<String>,
    /// `OTEL_METRICS_EXPORTER`: `otlp` (the default), `prometheus` or `none`.
    pub metrics_exporter: Option<String>,
    /// `OTEL_EXPORTER_OTLP_TRACES_ENDPOINT`.
    pub otlp_traces_endpoint: Option<String>,
    /// `OTEL_EXPORTER_OTLP_METRICS_ENDPOINT`.
    pub otlp_metrics_endpoint: Option<String>,
    /// `OTEL_EXPORTER_OTLP_ENDPOINT`, the shared fallback endpoint.
    pub otlp_endpoint: Option<String>,
    /// `OTEL_EXPORTER_PROMETHEUS_HOST` (default `0.0.0.0`).
    pub prometheus_host: Option<String>,
    /// `OTEL_EXPORTER_PROMETHEUS_PORT` (default `9464`).
    pub prometheus_port: Option<String>,
}

/// The trace exporter a pipeline runs.
#[derive(Clone, PartialEq, Eq, Debug)]
pub enum TraceExporterPlan {
    /// Batched OTLP export to this endpoint.
    Otlp { endpoint: String },
    /// The Jaeger agent exporter, configured from its own environment.
    Jaeger,
    /// The guaranteed-to-succeed local no-op/stdout exporter.
    Stdout,
}

/// The metrics exporter a pipeline runs.
#[derive(Clone, PartialEq, Eq, Debug)]
pub enum MetricsExporterPlan {
    /// Periodic OTLP push to this endpoint.
    Otlp { endpoint: String },
    /// Locally buffered metrics, pushed once at shutdown to this gateway
    /// endpoint (`host:port`).
    Prometheus { endpoint: String },
    /// The guaranteed-to-succeed local no-op/stdout exporter.
    Stdout,
}

/// Why installing the chosen pipeline failed.  Never surfaced to the
/// caller of [`install_pipeline`]; carried only so the owner can log it.
#[derive(Clone, PartialEq, Eq, Debug)]
pub enum PipelineError {
    /// The configured trace exporter name is not recognized.
    UnsupportedTracesExporter(String),
    /// The configured metrics exporter name is not recognized.
    UnsupportedMetricsExporter(String),
    /// Building the recognized trace exporter failed (message).
    TraceError(String),
    /// Building the recognized metrics exporter failed (message).
    MetricsError(String),
}

impl PipelineError {
    /// A human-readable description for the error stream.
    pub fn message(&self) -> (r: String)
        ensures
            *self matches PipelineError::UnsupportedTracesExporter(n) ==> r@
                == "Unsupported traces exporter "@ + n@ + ". Supported are: otlp, jaeger, stdout"@,
            *self matches PipelineError::UnsupportedMetricsExporter(n) ==> r@
                == "Unsupported metrics exporter "@ + n@
                + ". Supported are: otlp, prometheus, stdout"@,
            *self matches PipelineError::TraceError(m) ==> r@ == "Trace pipeline failed: "@ + m@,
            *self matches PipelineError::MetricsError(m) ==> r@ == "Metrics pipeline failed: "@
                + m@,
    {
        match self {
            PipelineError::UnsupportedTracesExporter(n) => {
                let mut s = String::from_str("Unsupported traces exporter ");
                s.append(n.as_str());
                s.append(". Supported are: otlp, jaeger, stdout");
                s
            },
            PipelineError::UnsupportedMetricsExporter(n) => {
                let mut s = String::from_str("Unsupported metrics exporter ");
                s.append(n.as_str());
                s.append(". Supported are: otlp, prometheus, stdout");
                s
            },
            PipelineError::TraceError(m) => {
                let mut s = String::from_str("Trace pipeline failed: ");
                s.append(m.as_str());
                s
            },
            PipelineError::MetricsError(m) => {
                let mut s = String::from_str("Metrics pipeline failed: ");
                s.append(m.as_str());
                s
            },
        }
    }
}

/// The pipeline's life cycle.  The installing and shutting-down phases are
/// the windows in which the owner builds, respectively releases, the
/// backend resources named by the plans.
#[derive(Clone, Copy, PartialEq, Eq, Structural, Debug)]
pub enum PipelineState {
    Uninitialized,
    Installing,
    Installed,
    Shutdown,
}

/// The process-wide telemetry pipeline: which exporters run, and where in
/// its life cycle it stands.  Constructed once per invocation and passed
/// explicitly; there is no ambient global state.
#[derive(Debug)]
pub struct Pipeline {
    pub traces: TraceExporterPlan,
    pub metrics: MetricsExporterPlan,
    pub state: PipelineState,
}

/// Which trace-exporter resource the owner must release at shutdown.
#[derive(Clone, Copy, PartialEq, Eq, Structural, Debug)]
pub enum Uninstall {
    /// Shut the batched OTLP span exporter down, flushing buffered spans.
    Otlp,
    /// Shut the Jaeger exporter down, flushing buffered spans.
    Jaeger,
    /// The local no-op/stdout exporter: releasing it is a trivial success.
    Stdout,
}

/// Which metrics resource the owner must release at shutdown.
#[derive(Clone, PartialEq, Eq, Debug)]
pub enum MetricsUninstall {
    /// Stop the periodic OTLP push task, flushing buffered metrics.
    Push,
    /// Serialize the locally buffered metrics once and POST them to this
    /// push-gateway endpoint (`host:port`).
    Pull(String),
    /// The local no-op/stdout exporter: releasing it is a trivial success.
    Stdout,
}

/// An endpoint override chain: the specific setting, else the shared one,
/// else the documented default.
pub open spec fn spec_endpoint(
    specific: Option<String>,
    general: Option<String>,
    default: Seq<char>,
) -> Seq<char> {
    match specific {
        Some(s) => s@,
        None => match general {
            Some(g) => g@,
            None => default,
        },
    }
}

pub open spec fn spec_otlp_traces_endpoint(cfg: PipelineConfig) -> Seq<char> {
    spec_endpoint(cfg.otlp_traces_endpoint, cfg.otlp_endpoint, "https://localhost:4317"@)
}

pub open spec fn spec_otlp_metrics_endpoint(cfg: PipelineConfig) -> Seq<char> {
    spec_endpoint(cfg.otlp_metrics_endpoint, cfg.otlp_endpoint, "https://localhost:4317"@)
}

/// The push-gateway endpoint `host:port`, with the documented defaults.
pub open spec fn spec_prometheus_endpoint(host: Option<String>, port: Option<String>) -> Seq<
    char,
> {
    (match host {
        Some(h) => h@,
        None => "0.0.0.0"@,
    }) + ":"@ + (match port {
        Some(p) => p@,
        None => "9464"@,
    })
}

/// Which trace exporter names configuration may use (absence means the
/// default, OTLP).
pub open spec fn spec_trace_selector_supported(sel: Option<String>) -> bool {
    match sel {
        None => true,
        Some(s) => s@ == "otlp"@ || s@ == "jaeger"@ || s@ == "none"@,
    }
}

/// Which metrics exporter names configuration may use.
pub open spec fn spec_metrics_selector_supported(sel: Option<String>) -> bool {
    match sel {
        None => true,
        Some(s) => s@ == "otlp"@ || s@ == "prometheus"@ || s@ == "none"@,
    }
}

pub open spec fn spec_config_supported(cfg: PipelineConfig) -> bool {
    spec_trace_selector_supported(cfg.traces_exporter) && spec_metrics_selector_supported(
        cfg.metrics_exporter,
    )
}

/// The trace plan a supported configuration chooses.
pub open spec fn spec_traces_plan_for(cfg: PipelineConfig, t: TraceExporterPlan) -> bool {
    match cfg.traces_exporter {
        None => t matches TraceExporterPlan::Otlp { endpoint } && endpoint@
            == spec_otlp_traces_endpoint(cfg),
        Some(s) => if s@ == "otlp"@ {
            t matches TraceExporterPlan::Otlp { endpoint } && endpoint@
                == spec_otlp_traces_endpoint(cfg)
        } else if s@ == "jaeger"@ {
            t is Jaeger
        } else if s@ == "none"@ {
            t is Stdout
        } else {
            false
        },
    }
}

/// The metrics plan a supported configuration chooses.
pub open spec fn spec_metrics_plan_for(cfg: PipelineConfig, m: MetricsExporterPlan) -> bool {
    match cfg.metrics_exporter {
        None => m matches MetricsExporterPlan::Otlp { endpoint } && endpoint@
            == spec_otlp_metrics_endpoint(cfg),
        Some(s) => if s@ == "otlp"@ {
            m matches MetricsExporterPlan::Otlp { endpoint } && endpoint@
                == spec_otlp_metrics_endpoint(cfg)
        } else if s@ == "prometheus"@ {
            m matches MetricsExporterPlan::Prometheus { endpoint } && endpoint@
                == spec_prometheus_endpoint(cfg.prometheus_host, cfg.prometheus_port)
        } else if s@ == "none"@ {
            m is Stdout
        } else {
            false
        },
    }
}

/// Resolves an endpoint override chain.
fn resolve_endpoint(specific: &Option<String>, general: &Option<String>, default: &str) -> (r:
    String)
    ensures
        r@ == spec_endpoint(*specific, *general, default@),
{
    match specific {
        Some(s) => s.clone(),
        None => match general {
            Some(g) => g.clone(),
            None => String::from_str(default),
        },
    }
}

/// The OTLP trace exporter, at the configured or default endpoint.
pub fn try_install_otlp_traces_pipeline(cfg: &PipelineConfig) -> (t: TraceExporterPlan)
    ensures
        t matches TraceExporterPlan::Otlp { endpoint } && endpoint@ == spec_otlp_traces_endpoint(
            *cfg,
        ),
{
    let endpoint = resolve_endpoint(
        &cfg.otlp_traces_endpoint,
        &cfg.otlp_endpoint,
        "https://localhost:4317",
    );
    TraceExporterPlan::Otlp { endpoint }
}

/// The OTLP metrics exporter, at the configured or default endpoint.
pub fn try_install_otlp_metrics_pipeline(cfg: &PipelineConfig) -> (m: MetricsExporterPlan)
    ensures
        m matches MetricsExporterPlan::Otlp { endpoint } && endpoint@ == spec_otlp_metrics_endpoint(
            *cfg,
        ),
{
    let endpoint = resolve_endpoint(
        &cfg.otlp_metrics_endpoint,
        &cfg.otlp_endpoint,
        "https://localhost:4317",
    );
    MetricsExporterPlan::Otlp { endpoint }
}

/// The Jaeger trace exporter (it reads its own environment).
pub fn try_install_jaeger_traces_pipeline() -> (t: TraceExporterPlan)
    ensures
        t is Jaeger,
{
    TraceExporterPlan::Jaeger
}

/// The buffered prometheus metrics exporter, pushed at shutdown to
/// `host:port` with the documented defaults.
pub fn try_install_prometheus_metrics_pipeline(
    host: &Option<String>,
    port: &Option<String>,
) -> (m: MetricsExporterPlan)
    ensures
        m matches MetricsExporterPlan::Prometheus { endpoint } && endpoint@
            == spec_prometheus_endpoint(*host, *port),
{
    let mut endpoint = match host {
        Some(h) => h.clone(),
        None => String::from_str("0.0.0.0"),
    };
    endpoint.append(":");
    match port {
        Some(p) => endpoint.append(p.as_str()),
        None => endpoint.append("9464"),
    }
    MetricsExporterPlan::Prometheus { endpoint }
}

/// The local no-op trace exporter; building it cannot fail.
pub fn install_noop_traces_pipeline() -> (t: TraceExporterPlan)
    ensures
        t is Stdout,
{
    TraceExporterPlan::Stdout
}

/// The local no-op metrics exporter; building it cannot fail.
pub fn install_noop_metrics_pipeline() -> (m: MetricsExporterPlan)
    ensures
        m is Stdout,
{
    MetricsExporterPlan::Stdout
}

impl Pipeline {
    /// A pipeline that has not been installed yet.
    pub fn new() -> (p: Pipeline)
        ensures
            p.state is Uninitialized,
            p.traces is Stdout,
            p.metrics is Stdout,
    {
        Pipeline {
            traces: TraceExporterPlan::Stdout,
            metrics: MetricsExporterPlan::Stdout,
            state: PipelineState::Uninitialized,
        }
    }

    /// Chooses the exporters the configuration names.  On success the
    /// pipeline is installing and holds the chosen plans for the owner to
    /// build.  An unrecognized name installs the fallback immediately; the
    /// returned error is only for logging and carries the offending name.
    pub fn begin_install(&mut self, cfg: &PipelineConfig) -> (r: Result<(), PipelineError>)
        requires
            old(self).state is Uninitialized,
        ensures
            r is Ok <==> spec_config_supported(*cfg),
            r is Ok ==> final(self).state is Installing && spec_traces_plan_for(
                *cfg,
                final(self).traces,
            ) && spec_metrics_plan_for(*cfg, final(self).metrics),
            r is Err ==> final(self).state is Installed && final(self).traces is Stdout
                && final(self).metrics is Stdout,
            !spec_trace_selector_supported(cfg.traces_exporter) ==> (r matches Err(
                PipelineError::UnsupportedTracesExporter(n),
            ) && n@ == cfg.traces_exporter->0@),
            spec_trace_selector_supported(cfg.traces_exporter)
                && !spec_metrics_selector_supported(cfg.metrics_exporter) ==> (r matches Err(
                PipelineError::UnsupportedMetricsExporter(n),
            ) && n@ == cfg.metrics_exporter->0@),
    {
        let traces: TraceExporterPlan = match &cfg.traces_exporter {
            None => try_install_otlp_traces_pipeline(cfg),
            Some(sel) => {
                if str_eq(sel.as_str(), "otlp") {
                    try_install_otlp_traces_pipeline(cfg)
                } else if str_eq(sel.as_str(), "jaeger") {
                    try_install_jaeger_traces_pipeline()
                } else if str_eq(sel.as_str(), "none") {
                    install_noop_traces_pipeline()
                } else {
                    self.traces = install_noop_traces_pipeline();
                    self.metrics = install_noop_metrics_pipeline();
                    self.state = PipelineState::Installed;
                    return Err(PipelineError::UnsupportedTracesExporter(sel.clone()));
                }
            },
        };
        let metrics: MetricsExporterPlan = match &cfg.metrics_exporter {
            None => try_install_otlp_metrics_pipeline(cfg),
            Some(sel) => {
                if str_eq(sel.as_str(), "otlp") {
                    try_install_otlp_metrics_pipeline(cfg)
                } else if str_eq(sel.as_str(), "prometheus") {
                    try_install_prometheus_metrics_pipeline(
                        &cfg.prometheus_host,
                        &cfg.prometheus_port,
                    )
                } else if str_eq(sel.as_str(), "none") {
                    install_noop_metrics_pipeline()
                } else {
                    self.traces = install_noop_traces_pipeline();
                    self.metrics = install_noop_metrics_pipeline();
                    self.state = PipelineState::Installed;
                    return Err(PipelineError::UnsupportedMetricsExporter(sel.clone()));
                }
            },
        };
        self.traces = traces;
        self.metrics = metrics;
        self.state = PipelineState::Installing;
        Ok(())
    }

    /// Reports whether building the chosen backends succeeded.  Any
    /// failure abandons the whole attempt and installs the fallback; the
    /// pipeline is installed either way.
    pub fn complete_install(&mut self, backend_failure: Option<PipelineError>)
        requires
            old(self).state is Installing,
        ensures
            final(self).state is Installed,
            backend_failure is None ==> final(self).traces == old(self).traces
                && final(self).metrics == old(self).metrics,
            backend_failure is Some ==> final(self).traces is Stdout
                && final(self).metrics is Stdout,
    {
        if backend_failure.is_some() {
            self.traces = install_noop_traces_pipeline();
            self.metrics = install_noop_metrics_pipeline();
        }
        self.state = PipelineState::Installed;
    }

    /// The explicit not-yet-shut-down guard.
    pub fn is_shut_down(&self) -> (r: bool)
        ensures
            r == (self.state is Shutdown),
    {
        match self.state {
            PipelineState::Shutdown => true,
            _ => false,
        }
    }

    /// Tears the pipeline down, handing the owner the release and flush
    /// actions.  The actions come out exactly once: only the shutdown of
    /// an installed pipeline yields them; shutting down any other state
    /// (never installed, or already shut down) is a safe no-op.
    pub fn shutdown(&mut self) -> (r: Option<(Uninstall, MetricsUninstall)>)
        ensures
            *final(self) == spec_after_shutdown(*old(self)),
            r == spec_shutdown_actions(*old(self)),
    {
        let r = match self.state {
            PipelineState::Installed => {
                let u = match &self.traces {
                    TraceExporterPlan::Otlp { .. } => Uninstall::Otlp,
                    TraceExporterPlan::Jaeger => Uninstall::Jaeger,
                    TraceExporterPlan::Stdout => Uninstall::Stdout,
                };
                let m = match &self.metrics {
                    MetricsExporterPlan::Otlp { .. } => MetricsUninstall::Push,
                    MetricsExporterPlan::Prometheus { endpoint } => MetricsUninstall::Pull(
                        endpoint.clone(),
                    ),
                    MetricsExporterPlan::Stdout => MetricsUninstall::Stdout,
                };
                Some((u, m))
            },
            _ => None,
        };
        self.state = PipelineState::Shutdown;
        r
    }
}

/// The pipeline after shutdown: same plans, final state.
pub open spec fn spec_after_shutdown(p: Pipeline) -> Pipeline {
    Pipeline { traces: p.traces, metrics: p.metrics, state: PipelineState::Shutdown }
}

/// The release/flush actions a shutdown yields: the trace resource named
/// by the trace plan, and for metrics either the stop of the OTLP push
/// task or the one buffered-metrics push to the gateway.
pub open spec fn spec_shutdown_actions(p: Pipeline) -> Option<(Uninstall, MetricsUninstall)> {
    if p.state is Installed {
        Some(
            (
                match p.traces {
                    TraceExporterPlan::Otlp { .. } => Uninstall::Otlp,
                    TraceExporterPlan::Jaeger => Uninstall::Jaeger,
                    TraceExporterPlan::Stdout => Uninstall::Stdout,
                },
                match p.metrics {
                    MetricsExporterPlan::Otlp { .. } => MetricsUninstall::Push,
                    MetricsExporterPlan::Prometheus { endpoint } => MetricsUninstall::Pull(
                        endpoint,
                    ),
                    MetricsExporterPlan::Stdout => MetricsUninstall::Stdout,
                },
            ),
        )
    } else {
        None
    }
}

/// Buffered metrics are flushed exactly once: an installed pipeline's
/// shutdown yields the flush actions, and every later shutdown yields
/// none.
pub proof fn lemma_shutdown_flushes_exactly_once(p: Pipeline)
    ensures
        p.state is Installed ==> spec_shutdown_actions(p) is Some,
        spec_shutdown_actions(spec_after_shutdown(p)) is None,
{
}

/// Installs the pipeline the configuration names, with fallback.  The
/// owner attempts to build the chosen backends between the two phases and
/// reports any failure here; misconfiguration or a failed backend yields
/// the guaranteed-to-succeed fallback, never an error.
pub fn install_pipeline(cfg: &PipelineConfig, backend_failure: Option<PipelineError>) -> (p:
    Pipeline)
    ensures
        p.state is Installed,
        spec_config_supported(*cfg) && backend_failure is None ==> spec_traces_plan_for(
            *cfg,
            p.traces,
        ) && spec_metrics_plan_for(*cfg, p.metrics),
        !spec_config_supported(*cfg) || backend_failure is Some ==> p.traces is Stdout
            && p.metrics is Stdout,
{
    let mut p = Pipeline::new();
    match p.begin_install(cfg) {
        Ok(()) => p.complete_install(backend_failure),
        Err(_) => (),
    }
    p
}

/// A pipeline of the two local no-op exporters, already installed; the
/// fallback that cannot fail.
pub fn install_fallback_pipeline() -> (p: Pipeline)
    ensures
        p.state is Installed,
        p.traces is Stdout,
        p.metrics is Stdout,
{
    Pipeline {
        traces: TraceExporterPlan::Stdout,
        metrics: MetricsExporterPlan::Stdout,
        state: PipelineState::Installed,
    }
}

/// Explicit-state replacement for the reference behavior of registering a
/// process-global prometheus push exporter: installs or clears the
/// pipeline's prometheus push target and returns the target registered
/// before, which the caller owns from then on.
pub fn set_global_prometheus_exporter(p: &mut Pipeline, exporter: Option<String>) -> (prev:
    Option<String>)
    ensures
        final(p).traces == old(p).traces,
        final(p).state == old(p).state,
        exporter matches Some(e) ==> (final(p).metrics matches MetricsExporterPlan::Prometheus {
            endpoint,
        } && endpoint == e),
        exporter is None ==> final(p).metrics is Stdout,
        (match old(p).metrics {
            MetricsExporterPlan::Prometheus { endpoint } => prev matches Some(x) && x == endpoint,
            _ => prev is None,
        }),
{
    let prev = match &p.metrics {
        MetricsExporterPlan::Prometheus { endpoint } => Some(endpoint.clone()),
        _ => None,
    };
    p.metrics = match exporter {
        Some(e) => MetricsExporterPlan::Prometheus { endpoint: e },
        None => install_noop_metrics_pipeline(),
    };
    prev
}

/// One character of a sanitized name: letters and digits stay, every other
/// character becomes an underscore.
pub open spec fn spec_sanitize_char(c: char) -> char {
    if is_ascii_alphanumeric_char(c) {
        c
    } else {
        '_'
    }
}

pub open spec fn spec_escaped(s: Seq<char>) -> Seq<char> {
    Seq::new(s.len(), |i: int| spec_sanitize_char(s[i]))
}

/// The prefix a sanitized name gets: `key_` when the escaped name starts
/// with a digit, `key` when it starts with an underscore, nothing
/// otherwise.
pub open spec fn spec_sanitize_prefix(s: Seq<char>) -> Seq<char> {
    if s.len() == 0 {
        Seq::empty()
    } else if is_ascii_digit_char(spec_sanitize_char(s[0])) {
        seq!['k', 'e', 'y', '_']
    } else if spec_sanitize_char(s[0]) == '_' {
        seq!['k', 'e', 'y']
    } else {
        Seq::empty()
    }
}

pub open spec fn spec_truncated_100(s: Seq<char>) -> Seq<char> {
    if s.len() <= 100 {
        s
    } else {
        s.take(100)
    }
}

/// The external name of a metric or label: escaped, prefixed, and
/// truncated to 100 characters.  Deterministic, so repeated pushes of the
/// same logical metric always produce the same external name.
pub open spec fn spec_sanitize(s: Seq<char>) -> Seq<char> {
    spec_truncated_100(spec_sanitize_prefix(s) + spec_escaped(s))
}

fn sanitize_char(c: char) -> (r: char)
    ensures
        r == spec_sanitize_char(c),
{
    if ascii_alphanumeric(c) {
        c
    } else {
        '_'
    }
}

/// Sanitizes a metric or label name into the target exposition format:
/// every character outside `[A-Za-z0-9_]` becomes `_`; a name whose first
/// escaped character is a digit is prefixed with `key_`, one starting with
/// `_` with `key`; the result is truncated to 100 characters.
pub fn sanitize_prometheus_key(raw: &str) -> (r: String)
    ensures
        r@ == spec_sanitize(raw@),
{
    let n = raw.unicode_len();
    let mut out = String::new();
    let mut count: usize = 0;
    if n > 0 {
        let e0 = sanitize_char(raw.get_char(0));
        if ascii_digit(e0) {
            out.append("key_");
            count = 4;
            proof {
                reveal_strlit("key_");
                assert(out@ =~= spec_sanitize_prefix(raw@));
            }
        } else if e0 == '_' {
            out.append("key");
            count = 3;
            proof {
                reveal_strlit("key");
                assert(out@ =~= spec_sanitize_prefix(raw@));
            }
        } else {
            proof {
                assert(out@ =~= spec_sanitize_prefix(raw@));
            }
        }
    } else {
        proof {
            assert(out@ =~= spec_sanitize_prefix(raw@));
        }
    }
    let mut i: usize = 0;
    proof {
        assert(out@ =~= spec_sanitize_prefix(raw@) + spec_escaped(raw@).take(0));
    }
    while i < n && count < 100
        invariant
            i <= n,
            n == raw@.len(),
            count <= 100,
            count as int == spec_sanitize_prefix(raw@).len() + i,
            out@ == spec_sanitize_prefix(raw@) + spec_escaped(raw@).take(i as int),
        decreases n - i,
    {
        let c = sanitize_char(raw.get_char(i));
        push_char(&mut out, c);
        proof {
            assert(spec_escaped(raw@).take(i as int + 1) =~= spec_escaped(raw@).take(
                i as int,
            ).push(spec_sanitize_char(raw@[i as int])));
            assert(out@ =~= spec_sanitize_prefix(raw@) + spec_escaped(raw@).take(i as int + 1));
        }
        i += 1;
        count += 1;
    }
    proof {
        let pre = spec_sanitize_prefix(raw@);
        let esc = spec_escaped(raw@);
        if i == n {
            assert(esc.take(n as int) =~= esc);
            assert((pre + esc).len() == count);
        } else {
            assert(count == 100);
            assert((pre + esc).len() > 100);
            assert(out@ =~= (pre + esc).take(100));
        }
    }
    out
}

/// True when every character is a letter, a digit or an underscore.
pub open spec fn spec_sanitized_chars(s: Seq<char>) -> bool {
    forall|i: int|
        0 <= i < s.len() ==> is_ascii_alphanumeric_char(#[trigger] s[i]) || s[i] == '_'
}

/// Sanitizing is idempotent; the output is at most 100 characters, is
/// nonempty for nonempty input, holds only `[A-Za-z0-9_]`, and a name
/// starting with a digit comes out prefixed with `key_`, one starting
/// with an underscore prefixed with `key`.
pub proof fn lemma_sanitize_idempotent(s: Seq<char>)
    ensures
        spec_sanitize(s).len() <= 100,
        s.len() > 0 ==> spec_sanitize(s).len() >= 1,
        spec_sanitized_chars(spec_sanitize(s)),
        spec_sanitize(spec_sanitize(s)) == spec_sanitize(s),
        s.len() > 0 && is_ascii_digit_char(s[0]) ==> spec_sanitize(s).subrange(0, 4) == seq![
            'k',
            'e',
            'y',
            '_',
        ],
        s.len() > 0 && s[0] == '_' ==> spec_sanitize(s).subrange(0, 3) == seq!['k', 'e', 'y'],
{
    let pre = spec_sanitize_prefix(s);
    let esc = spec_escaped(s);
    let y = spec_sanitize(s);
    if s.len() > 0 && (is_ascii_digit_char(s[0]) || s[0] == '_') {
        assert(spec_sanitize_char(s[0]) == s[0]) by {
            if is_ascii_digit_char(s[0]) {
                assert(is_ascii_alphanumeric_char(s[0]));
            } else {
                assert(spec_sanitize_char('_') == '_');
            }
        }
        assert((pre + esc).len() > pre.len());
        if is_ascii_digit_char(s[0]) {
            assert(y.subrange(0, 4) =~= seq!['k', 'e', 'y', '_']);
        } else {
            assert(y.subrange(0, 3) =~= seq!['k', 'e', 'y']);
        }
    }
    assert forall|i: int| 0 <= i < y.len() implies is_ascii_alphanumeric_char(#[trigger] y[i])
        || y[i] == '_' by {
        assert(y[i] == (pre + esc)[i]);
        if i < pre.len() {
            assert(pre[i] == 'k' || pre[i] == 'e' || pre[i] == 'y' || pre[i] == '_');
        } else {
            assert((pre + esc)[i] == esc[i - pre.len()]);
        }
    }
    if y.len() == 0 {
        assert(spec_escaped(y) =~= Seq::<char>::empty());
        assert(spec_sanitize(y) =~= y);
    } else {
        assert(spec_escaped(y) =~= y) by {
            assert forall|i: int| 0 <= i < y.len() implies spec_escaped(y)[i] == y[i] by {
                assert(spec_sanitized_chars(y));
                assert(is_ascii_alphanumeric_char(y[i]) || y[i] == '_');
            }
        }
        assert(y[0] == (pre + esc)[0]);
        if pre.len() > 0 {
            assert(y[0] == 'k');
        } else {
            assert(y[0] == esc[0]);
            assert(!is_ascii_digit_char(spec_sanitize_char(s[0])));
            assert(spec_sanitize_char(s[0]) != '_');
        }
        assert(spec_sanitize_prefix(y) =~= Seq::<char>::empty());
        assert(spec_sanitize(y) =~= y);
    }
}

/// Sanitizes every label name of a gathered metric family, in order.
pub fn sanitize_label_names(names: &Vec<String>) -> (r: Vec<String>)
    ensures
        r@.len() == names@.len(),
        forall|i: int| 0 <= i < names@.len() ==> (#[trigger] r@[i])@ == spec_sanitize(names@[i]@),
{
    let mut r: Vec<String> = Vec::new();
    let mut i: usize = 0;
    while i < names.len()
        invariant
            i <= names@.len(),
            r@.len() == i,
            forall|j: int| 0 <= j < i ==> (#[trigger] r@[j])@ == spec_sanitize(names@[j]@),
        decreases names@.len() - i,
    {
        r.push(sanitize_prometheus_key(names[i].as_str()));
        i += 1;
    }
    r
}

/// The gateway URL one shutdown push posts to.
pub fn prometheus_push_url(endpoint: &str) -> (r: String)
    ensures
        r@ == "http://"@ + endpoint@ + "/metrics/job/tracebuild"@,
{
    let mut s = String::from_str("http://");
    s.append(endpoint);
    s.append("/metrics/job/tracebuild");
    s
}

/// Whether the gateway accepted the push: status 200 or 202; anything
/// else is a (logged, never fatal) push failure.
pub fn push_status_accepted(status: u16) -> (r: bool)
    ensures
        r == (status == 200 || status == 202),
{
    status == 200 || status == 202
}

} // verus!
