//! The pipeline of OTLP export: what its exporters are built with, in which
//! order, and how it is shut down.

use crate::kv::{distinct_keys, pairs_map};
use crate::metadata::{
    are_entries_of, are_unparseable, build_tonic_metadata, is_metadata_of, metadata_entries,
    unparseable_headers, MAX_HEADERS,
};
use crate::otel::config::{protocol_name, text_of, OtelConfig, OtelConfigView, OtelProtocol};
use crate::otel::exporters::{
    build_resource, grpc_log_exporter, grpc_metric_exporter, grpc_span_exporter,
    http_log_exporter, http_metric_exporter, http_span_exporter, leaves_room, log_refused, log_setup,
    logger_provider, logger_provider_setup, meter_named, meter_provider, meter_provider_setup,
    meter_request, metric_refused, metric_setup, resource_texts, service_attributes, span_refused, span_setup, tracer_named, tracer_provider,
    tracer_provider_setup, tracer_request, ExportSetup,
};
use crate::telemetry::TelemetryError;
use opentelemetry::metrics::Meter;
use opentelemetry_otlp::{LogExporter, MetricExporter, SpanExporter};
use opentelemetry_sdk::logs::SdkLoggerProvider;
use opentelemetry_sdk::metrics::SdkMeterProvider;
use opentelemetry_sdk::trace::{SdkTracer, SdkTracerProvider};
use opentelemetry_sdk::Resource;
use tokio::runtime::Handle;
use vstd::prelude::*;
use vstd::string::*;

verus! {

/// How long an export attempt waits before it gives up, in seconds.
pub const EXPORT_TIMEOUT_SECS: u64 = 10;

/// How long the shutdown of a whole pipeline may take, in seconds.
pub const OTEL_SHUTDOWN_BUDGET_SECS: u64 = 8;

/// What the exporters of a pipeline are built with.
pub enum ExportSettings {
    Grpc {
        endpoint: Option<String>,
        timeout_secs: u64,
        metadata: tonic::metadata::MetadataMap,
    },
    Http { endpoint: Option<String>, timeout_secs: u64, headers: Vec<(String, String)> },
}

/// Whether exporters built with `settings` are those of `config`.
pub open spec fn settings_fit(settings: ExportSettings, config: OtelConfigView) -> bool {
    match settings {
        ExportSettings::Grpc { endpoint, timeout_secs, metadata } => {
            &&& config.protocol == OtelProtocol::Grpc
            &&& text_of(endpoint) == config.endpoint
            &&& timeout_secs == EXPORT_TIMEOUT_SECS
            &&& is_metadata_of(metadata, config.headers)
        },
        ExportSettings::Http { endpoint, timeout_secs, headers } => {
            &&& config.protocol == OtelProtocol::HttpProtobuf
            &&& text_of(endpoint) == config.endpoint
            &&& timeout_secs == EXPORT_TIMEOUT_SECS
            &&& distinct_keys(headers@)
            &&& pairs_map(headers@) == config.headers
        },
    }
}

/// Whether exports for a configuration can go with all its headers, whatever
/// their names are.
pub open spec fn headers_fit(config: OtelConfigView) -> bool {
    config.protocol == OtelProtocol::Grpc ==> config.headers.dom().len() < MAX_HEADERS
}

/// Copies a list of pairs.
fn copy_pairs(pairs: &Vec<(String, String)>) -> (r: Vec<(String, String)>)
    ensures
        r@ =~= pairs@,
{
    let mut out: Vec<(String, String)> = Vec::new();
    let mut i: usize = 0;
    while i < pairs.len()
        invariant
            i <= pairs@.len(),
            out@ =~= pairs@.take(i as int),
        decreases pairs@.len() - i,
    {
        out.push((pairs[i].0.clone(), pairs[i].1.clone()));
        i += 1;
    }
    out
}

/// What the exporters for `config` are to be built with.
pub fn export_settings(config: &OtelConfig) -> (r: ExportSettings)
    requires
        headers_fit(config@),
    ensures
        settings_fit(r, config@),
        r matches ExportSettings::Grpc { metadata, .. } ==> leaves_room(metadata),
{
    let endpoint = match &config.endpoint {
        Some(s) => Some(s.clone()),
        None => None,
    };
    match config.protocol {
        OtelProtocol::Grpc => ExportSettings::Grpc {
            endpoint,
            timeout_secs: EXPORT_TIMEOUT_SECS,
            metadata: build_tonic_metadata(&config.headers),
        },
        OtelProtocol::HttpProtobuf => ExportSettings::Http {
            endpoint,
            timeout_secs: EXPORT_TIMEOUT_SECS,
            headers: copy_pairs(config.headers.entries()),
        },
    }
}

/// The keys of the headers that exports for `config` go without.
pub fn skipped_headers(config: &OtelConfig) -> (r: Vec<String>)
    ensures
        config@.protocol == OtelProtocol::HttpProtobuf ==> r@.len() == 0,
        config@.protocol == OtelProtocol::Grpc ==> are_unparseable(r@, config@.headers),
{
    match config.protocol {
        OtelProtocol::Grpc => unparseable_headers(&config.headers),
        OtelProtocol::HttpProtobuf => Vec::new(),
    }
}

/// What an exporter exports.
#[derive(Debug, Clone, Copy, PartialEq, Eq, Structural)]
pub enum Signal {
    Span,
    Log,
    Metric,
}

/// The name of `signal` in messages.
pub open spec fn signal_name(signal: Signal) -> Seq<char> {
    match signal {
        Signal::Span => "span"@,
        Signal::Log => "log"@,
        Signal::Metric => "metric"@,
    }
}

/// Why the exporter of `signal` could not be built.
pub open spec fn build_failure(
    protocol: OtelProtocol,
    signal: Signal,
    reason: Seq<char>,
) -> Seq<char> {
    "build otlp/"@ + protocol_name(protocol) + " "@ + signal_name(signal) + " exporter: "@ + reason
}

/// What comes of building the exporter of `signal`.
pub fn exporter_result<E>(protocol: OtelProtocol, signal: Signal, built: Result<E, String>) -> (r:
    Result<E, TelemetryError>)
    ensures
        match built {
            Ok(exporter) => r == Ok::<E, TelemetryError>(exporter),
            Err(reason) => r matches Err(e) && e.0@ == build_failure(protocol, signal, reason@),
        },
{
    match built {
        Ok(exporter) => Ok(exporter),
        Err(reason) => {
            let mut message = "build otlp/".to_owned();
            message.append(protocol.name());
            message.append(" ");
            message.append(
                match signal {
                    Signal::Span => "span",
                    Signal::Log => "log",
                    Signal::Metric => "metric",
                },
            );
            message.append(" exporter: ");
            message.append(reason.as_str());
            Err(TelemetryError(message))
        },
    }
}

/// Builds the three exporters of a pipeline with `settings`, one after the
/// other. The first failure ends it.
pub fn build_exporters<S, L, M, SB, LB, MB>(
    protocol: OtelProtocol,
    settings: &ExportSettings,
    span: SB,
    log: LB,
    metric: MB,
) -> (r: Result<(S, L, M), TelemetryError>)
    where
        SB: FnOnce(&ExportSettings) -> Result<S, String>,
        LB: FnOnce(&ExportSettings) -> Result<L, String>,
        MB: FnOnce(&ExportSettings) -> Result<M, String>,

    requires
        call_requires(span, (settings,)),
        call_requires(log, (settings,)),
        call_requires(metric, (settings,)),
    ensures
        match r {
            Ok((s, l, m)) => {
                &&& call_ensures(span, (settings,), Ok(s))
                &&& call_ensures(log, (settings,), Ok(l))
                &&& call_ensures(metric, (settings,), Ok(m))
            },
            Err(e) => {
                ||| exists|reason: String| #[trigger]
                    call_ensures(span, (settings,), Err(reason)) && e.0@ == build_failure(
                        protocol,
                        Signal::Span,
                        reason@,
                    )
                ||| exists|s: S, reason: String| #[trigger]
                    call_ensures(span, (settings,), Ok(s)) && #[trigger] call_ensures(
                        log,
                        (settings,),
                        Err(reason),
                    ) && e.0@ == build_failure(protocol, Signal::Log, reason@)
                ||| exists|s: S, l: L, reason: String| #[trigger]
                    call_ensures(span, (settings,), Ok(s)) && #[trigger] call_ensures(
                        log,
                        (settings,),
                        Ok(l),
                    ) && #[trigger] call_ensures(metric, (settings,), Err(reason)) && e.0@
                        == build_failure(protocol, Signal::Metric, reason@)
            },
        },
{
    let s = match exporter_result(protocol, Signal::Span, span(settings)) {
        Ok(exporter) => exporter,
        Err(error) => return Err(error),
    };
    let l = match exporter_result(protocol, Signal::Log, log(settings)) {
        Ok(exporter) => exporter,
        Err(error) => return Err(error),
    };
    let m = match exporter_result(protocol, Signal::Metric, metric(settings)) {
        Ok(exporter) => exporter,
        Err(error) => return Err(error),
    };
    Ok((s, l, m))
}

/// What was built, or nothing: a failure is handed to `warn` and goes no
/// further.
pub fn degrade<T, W>(built: Result<T, TelemetryError>, warn: W) -> (r: Option<T>)
    where W: FnOnce(TelemetryError)
    requires
        built matches Err(error) ==> call_requires(warn, (error,)),
    ensures
        match built {
            Ok(value) => r == Some(value),
            Err(error) => r is None && call_ensures(warn, (error,), ()),
        },
{
    match built {
        Ok(value) => Some(value),
        Err(error) => {
            warn(error);
            None
        },
    }
}

/// The endpoint that an exporter is built with: empty, if the choice is left to
/// it.
pub open spec fn endpoint_given(endpoint: Option<Seq<char>>) -> Seq<char> {
    match endpoint {
        Some(s) => s,
        None => Seq::empty(),
    }
}

/// The endpoint that an exporter is built with.
fn endpoint_or_empty(endpoint: &Option<String>) -> (r: &str)
    ensures
        endpoint matches Some(s) ==> r@ == s@,
        endpoint is None ==> r@.len() == 0,
        r@ == endpoint_given(text_of(*endpoint)),
{
    match endpoint {
        Some(s) => s.as_str(),
        None => {
            proof {
                reveal_strlit("");
                assert(""@ =~= Seq::empty());
            }
            ""
        },
    }
}

/// Whether exporters can be built with `settings`.
pub open spec fn settings_usable(settings: ExportSettings) -> bool {
    settings matches ExportSettings::Grpc { metadata, .. } ==> leaves_room(metadata)
}

/// What an exporter built with `settings` is given.
pub open spec fn setup_of(settings: ExportSettings) -> ExportSetup {
    match settings {
        ExportSettings::Grpc { endpoint, timeout_secs, metadata } => ExportSetup::Grpc {
            endpoint: endpoint_given(text_of(endpoint)),
            timeout_secs,
            metadata: metadata_entries(metadata),
        },
        ExportSettings::Http { endpoint, timeout_secs, headers } => ExportSetup::Http {
            endpoint: endpoint_given(text_of(endpoint)),
            timeout_secs,
            headers: pairs_map(headers@),
        },
    }
}

/// Whether `setup` is what an exporter for `config` is to be given.
pub open spec fn setup_fits(setup: ExportSetup, config: OtelConfigView) -> bool {
    match setup {
        ExportSetup::Grpc { endpoint, timeout_secs, metadata } => {
            &&& config.protocol == OtelProtocol::Grpc
            &&& endpoint == endpoint_given(config.endpoint)
            &&& timeout_secs == EXPORT_TIMEOUT_SECS
            &&& are_entries_of(metadata, config.headers)
        },
        ExportSetup::Http { endpoint, timeout_secs, headers } => {
            &&& config.protocol == OtelProtocol::HttpProtobuf
            &&& endpoint == endpoint_given(config.endpoint)
            &&& timeout_secs == EXPORT_TIMEOUT_SECS
            &&& headers == config.headers
        },
    }
}

/// Builds the exporter of spans.
fn span_exporter(runtime: &Handle, settings: &ExportSettings) -> (r: Result<SpanExporter, String>)
    requires
        settings_usable(*settings),
    ensures
        match r {
            Ok(exporter) => span_setup(exporter) == setup_of(*settings),
            Err(reason) => span_refused(setup_of(*settings), reason@),
        },
{
    match settings {
        ExportSettings::Grpc { endpoint, timeout_secs, metadata } => grpc_span_exporter(
            runtime,
            endpoint_or_empty(endpoint),
            *timeout_secs,
            metadata,
        ),
        ExportSettings::Http { endpoint, timeout_secs, headers } => http_span_exporter(
            endpoint_or_empty(endpoint),
            *timeout_secs,
            headers,
        ),
    }
}

/// Builds the exporter of logs.
fn log_exporter(runtime: &Handle, settings: &ExportSettings) -> (r: Result<LogExporter, String>)
    requires
        settings_usable(*settings),
    ensures
        match r {
            Ok(exporter) => log_setup(exporter) == setup_of(*settings),
            Err(reason) => log_refused(setup_of(*settings), reason@),
        },
{
    match settings {
        ExportSettings::Grpc { endpoint, timeout_secs, metadata } => grpc_log_exporter(
            runtime,
            endpoint_or_empty(endpoint),
            *timeout_secs,
            metadata,
        ),
        ExportSettings::Http { endpoint, timeout_secs, headers } => http_log_exporter(
            endpoint_or_empty(endpoint),
            *timeout_secs,
            headers,
        ),
    }
}

/// Builds the exporter of metrics.
fn metric_exporter(runtime: &Handle, settings: &ExportSettings) -> (r: Result<MetricExporter, String>)
    requires
        settings_usable(*settings),
    ensures
        match r {
            Ok(exporter) => metric_setup(exporter) == setup_of(*settings),
            Err(reason) => metric_refused(setup_of(*settings), reason@),
        },
{
    match settings {
        ExportSettings::Grpc { endpoint, timeout_secs, metadata } => grpc_metric_exporter(
            runtime,
            endpoint_or_empty(endpoint),
            *timeout_secs,
            metadata,
        ),
        ExportSettings::Http { endpoint, timeout_secs, headers } => http_metric_exporter(
            endpoint_or_empty(endpoint),
            *timeout_secs,
            headers,
        ),
    }
}

/// A live OTLP pipeline: a provider for each signal, and the tracer and the
/// meter of the daemon.
pub struct OtelPipeline {
    tracer_provider: SdkTracerProvider,
    logger_provider: SdkLoggerProvider,
    meter_provider: SdkMeterProvider,
    tracer: SdkTracer,
    meter: Meter,
}

/// Whether building the exporter of `signal` with `setup` fails for the reason
/// `reason`, after those of the signals before it were built.
pub open spec fn exporter_refused(signal: Signal, setup: ExportSetup, reason: Seq<char>) -> bool {
    let span_built = exists|exporter: SpanExporter| #[trigger] span_setup(exporter) == setup;
    let log_built = exists|exporter: LogExporter| #[trigger] log_setup(exporter) == setup;
    match signal {
        Signal::Span => span_refused(setup, reason),
        Signal::Log => span_built && log_refused(setup, reason),
        Signal::Metric => span_built && log_built && metric_refused(setup, reason),
    }
}

/// Whether `error` names an exporter for `config` that could not be built, and
/// gives the reason.
pub open spec fn is_build_failure(error: TelemetryError, config: OtelConfigView) -> bool {
    exists|signal: Signal, setup: ExportSetup, reason: Seq<char>| #[trigger]
        exporter_refused(signal, setup, reason) && setup_fits(setup, config) && error.0@
            == build_failure(config.protocol, signal, reason)
}

impl OtelPipeline {
    /// Whether the pipeline exports where and as `config` says: each provider
    /// by an exporter that was given its settings, with its attributes, and the
    /// tracer and the meter from these providers, in the daemon's scope.
    pub open spec fn serves(&self, config: &OtelConfig) -> bool {
        let attributes = service_attributes(config@.service_name, config.resource_attributes@);
        let (span, span_texts) = tracer_provider_setup(self.spec_tracer_provider());
        let (log, log_texts) = logger_provider_setup(self.spec_logger_provider());
        let (metric, metric_texts) = meter_provider_setup(self.spec_meter_provider());
        &&& setup_fits(span, config@) && attributes.submap_of(span_texts)
        &&& setup_fits(log, config@) && attributes.submap_of(log_texts)
        &&& setup_fits(metric, config@) && attributes.submap_of(metric_texts)
        &&& tracer_request(self.spec_tracer()) == (
            tracer_provider_setup(self.spec_tracer_provider()),
            "penguind"@,
        )
        &&& meter_request(self.spec_meter()) == (
            meter_provider_setup(self.spec_meter_provider()),
            "penguind"@,
        )
    }

    /// Builds the exporters and providers for `config`; connections are made on
    /// `runtime`. The settings are those of [`export_settings`], and the first
    /// exporter that fails ends it. An unreachable endpoint is no failure.
    pub fn build(config: &OtelConfig, runtime: &Handle) -> (r: Result<OtelPipeline, TelemetryError>)
        requires
            headers_fit(config@),
        ensures
            match r {
                Ok(pipeline) => pipeline.serves(config),
                Err(error) => is_build_failure(error, config@),
            },
    {
        let resource = build_resource(config);
        let settings = export_settings(config);
        let span = |s: &ExportSettings| -> (r: Result<SpanExporter, String>)
            requires
                settings_usable(*s),
            ensures
                match r {
                    Ok(exporter) => span_setup(exporter) == setup_of(*s),
                    Err(reason) => span_refused(setup_of(*s), reason@),
                },
            { span_exporter(runtime, s) };
        let log = |s: &ExportSettings| -> (r: Result<LogExporter, String>)
            requires
                settings_usable(*s),
            ensures
                match r {
                    Ok(exporter) => log_setup(exporter) == setup_of(*s),
                    Err(reason) => log_refused(setup_of(*s), reason@),
                },
            { log_exporter(runtime, s) };
        let metric = |s: &ExportSettings| -> (r: Result<MetricExporter, String>)
            requires
                settings_usable(*s),
            ensures
                match r {
                    Ok(exporter) => metric_setup(exporter) == setup_of(*s),
                    Err(reason) => metric_refused(setup_of(*s), reason@),
                },
            { metric_exporter(runtime, s) };
        let ghost setup = setup_of(settings);
        let ghost (span_spec, log_spec, metric_spec) = (span, log, metric);
        match build_exporters(config.protocol, &settings, span, log, metric) {
            Ok((span, log, metric)) => Ok(OtelPipeline::assemble(&resource, span, log, metric)),
            Err(error) => {
                proof {
                    assert forall|reason: String| #[trigger]
                        call_ensures(span_spec, (&settings,), Err(reason)) implies exporter_refused(
                        Signal::Span,
                        setup,
                        reason@,
                    ) by {}
                    assert forall|s: SpanExporter, reason: String| #[trigger]
                        call_ensures(span_spec, (&settings,), Ok(s)) && #[trigger] call_ensures(
                            log_spec,
                            (&settings,),
                            Err(reason),
                        ) implies exporter_refused(Signal::Log, setup, reason@) by {
                        assert(span_setup(s) == setup);
                    }
                    assert forall|s: SpanExporter, l: LogExporter, reason: String| #[trigger]
                        call_ensures(span_spec, (&settings,), Ok(s)) && #[trigger] call_ensures(
                            log_spec,
                            (&settings,),
                            Ok(l),
                        ) && #[trigger] call_ensures(
                            metric_spec,
                            (&settings,),
                            Err(reason),
                        ) implies exporter_refused(Signal::Metric, setup, reason@) by {
                        assert(span_setup(s) == setup);
                        assert(log_setup(l) == setup);
                    }
                }
                Err(error)
            },
        }
    }

    /// Puts the exporters into their providers.
    fn assemble(
        resource: &Resource,
        span: SpanExporter,
        log: LogExporter,
        metric: MetricExporter,
    ) -> (r: OtelPipeline)
        ensures
            tracer_provider_setup(r.spec_tracer_provider()) == (
                span_setup(span),
                resource_texts(*resource),
            ),
            logger_provider_setup(r.spec_logger_provider()) == (
                log_setup(log),
                resource_texts(*resource),
            ),
            meter_provider_setup(r.spec_meter_provider()) == (
                metric_setup(metric),
                resource_texts(*resource),
            ),
            tracer_request(r.spec_tracer()) == (
                tracer_provider_setup(r.spec_tracer_provider()),
                "penguind"@,
            ),
            meter_request(r.spec_meter()) == (
                meter_provider_setup(r.spec_meter_provider()),
                "penguind"@,
            ),
    {
        let traces = tracer_provider(span, resource);
        let tracer = tracer_named(&traces, "penguind");
        let logs = logger_provider(log, resource);
        let metrics = meter_provider(metric, resource);
        let meter = meter_named(&metrics, "penguind");
        OtelPipeline {
            tracer_provider: traces,
            logger_provider: logs,
            meter_provider: metrics,
            tracer,
            meter,
        }
    }

    /// The provider of traces.
    pub closed spec fn spec_tracer_provider(&self) -> SdkTracerProvider {
        self.tracer_provider
    }

    /// The provider of traces.
    pub fn tracer_provider(&self) -> (r: &SdkTracerProvider)
        ensures
            *r == self.spec_tracer_provider(),
    {
        &self.tracer_provider
    }

    /// The provider of logs.
    pub closed spec fn spec_logger_provider(&self) -> SdkLoggerProvider {
        self.logger_provider
    }

    /// The provider of logs.
    pub fn logger_provider(&self) -> (r: &SdkLoggerProvider)
        ensures
            *r == self.spec_logger_provider(),
    {
        &self.logger_provider
    }

    /// The provider of metrics.
    pub closed spec fn spec_meter_provider(&self) -> SdkMeterProvider {
        self.meter_provider
    }

    /// The provider of metrics.
    pub fn meter_provider(&self) -> (r: &SdkMeterProvider)
        ensures
            *r == self.spec_meter_provider(),
    {
        &self.meter_provider
    }

    /// The tracer that spans are exported by.
    pub closed spec fn spec_tracer(&self) -> SdkTracer {
        self.tracer
    }

    /// The tracer that spans are exported by.
    pub fn tracer(&self) -> (r: &SdkTracer)
        ensures
            *r == self.spec_tracer(),
    {
        &self.tracer
    }

    /// The meter that instruments are made from.
    pub closed spec fn spec_meter(&self) -> Meter {
        self.meter
    }

    /// The meter that instruments are made from.
    pub fn meter(&self) -> (r: &Meter)
        ensures
            *r == self.spec_meter(),
    {
        &self.meter
    }
}

/// The pipeline for `config`, or none: a failure to build is handed to `warn`
/// and goes no further.
pub fn build_or_degrade<W>(config: &OtelConfig, runtime: &Handle, warn: W) -> (r: Option<
    OtelPipeline,
>)
    where W: FnOnce(TelemetryError)
    requires
        headers_fit(config@),
        forall|error: TelemetryError| #[trigger] call_requires(warn, (error,)),
    ensures
        match r {
            Some(pipeline) => pipeline.serves(config),
            None => exists|error: TelemetryError| #[trigger]
                call_ensures(warn, (error,), ()) && is_build_failure(error, config@),
        },
{
    let built = OtelPipeline::build(config, runtime);
    let ghost outcome = built;
    let pipeline = degrade(built, warn);
    proof {
        if let Err(error) = outcome {
            assert(call_ensures(warn, (error,), ()));
        }
    }
    pipeline
}

/// The text of a configuration with more headers than surely fit.
pub open spec fn too_many_headers() -> Seq<char> {
    "build otlp/grpc metadata: too many headers"@
}

/// Whether exports for `config` can go with all its headers.
fn has_room(config: &OtelConfig) -> (r: bool)
    ensures
        r == headers_fit(config@),
{
    match config.protocol {
        OtelProtocol::Grpc => config.headers.len() < MAX_HEADERS,
        OtelProtocol::HttpProtobuf => true,
    }
}

/// The pipeline for the configuration that `read` gives, if OTLP export is
/// `enabled`. Where it is not, nothing is read or built. A failure to build,
/// or more headers than surely fit, is handed to `warn` and goes no further.
pub fn init<C, W>(enabled: bool, read: C, runtime: &Handle, warn: W) -> (r: Option<OtelPipeline>)
    where C: FnOnce() -> OtelConfig, W: FnOnce(TelemetryError)
    requires
        enabled ==> call_requires(read, ()),
        enabled ==> forall|error: TelemetryError| #[trigger] call_requires(warn, (error,)),
    ensures
        !enabled ==> r is None,
        enabled ==> exists|config: OtelConfig| #[trigger]
            call_ensures(read, (), config) && match r {
                Some(pipeline) => headers_fit(config@) && pipeline.serves(&config),
                None => exists|error: TelemetryError| #[trigger]
                    call_ensures(warn, (error,), ()) && if headers_fit(config@) {
                        is_build_failure(error, config@)
                    } else {
                        error.0@ == too_many_headers()
                    },
            },
{
    if !enabled {
        return None;
    }
    let config = read();
    if !has_room(&config) {
        let error = TelemetryError("build otlp/grpc metadata: too many headers".to_owned());
        warn(error);
        return None;
    }
    build_or_degrade(&config, runtime, warn)
}

/// The providers of a pipeline.
#[derive(Debug, Clone, Copy, PartialEq, Eq, Structural)]
pub enum Provider {
    Tracer,
    Logger,
    Meter,
}

/// A provider that did not shut down, and why.
#[derive(Debug, PartialEq, Eq)]
pub struct ShutdownFailure {
    pub provider: Provider,
    pub reason: String,
}

/// The failure of `provider` in `outcome`, if it is one.
pub open spec fn failure_of(provider: Provider, outcome: Result<(), String>) -> Seq<
    ShutdownFailure,
> {
    match outcome {
        Ok(_) => seq![],
        Err(reason) => seq![ShutdownFailure { provider, reason }],
    }
}

/// Shuts down the three providers of a pipeline, one after the other, whether
/// or not the others fail, and returns the failures.
pub fn shutdown<T, L, M>(tracer: T, logger: L, meter: M) -> (r: Vec<ShutdownFailure>)
    where
        T: FnOnce() -> Result<(), String>,
        L: FnOnce() -> Result<(), String>,
        M: FnOnce() -> Result<(), String>,

    requires
        call_requires(tracer, ()),
        call_requires(logger, ()),
        call_requires(meter, ()),
    ensures
        exists|t: Result<(), String>, l: Result<(), String>, m: Result<(), String>| #[trigger]
            call_ensures(tracer, (), t) && #[trigger] call_ensures(logger, (), l) && #[trigger]
            call_ensures(meter, (), m) && r@ == failure_of(Provider::Tracer, t) + failure_of(
                Provider::Logger,
                l,
            ) + failure_of(Provider::Meter, m),
{
    let mut failures: Vec<ShutdownFailure> = Vec::new();
    let t = tracer();
    let ghost t_outcome = t;
    if let Err(reason) = t {
        failures.push(ShutdownFailure { provider: Provider::Tracer, reason });
    }
    assert(failures@ =~= failure_of(Provider::Tracer, t_outcome));
    let l = logger();
    let ghost l_outcome = l;
    if let Err(reason) = l {
        failures.push(ShutdownFailure { provider: Provider::Logger, reason });
    }
    assert(failures@ =~= failure_of(Provider::Tracer, t_outcome) + failure_of(
        Provider::Logger,
        l_outcome,
    ));
    let m = meter();
    let ghost m_outcome = m;
    if let Err(reason) = m {
        failures.push(ShutdownFailure { provider: Provider::Meter, reason });
    }
    assert(failures@ =~= failure_of(Provider::Tracer, t_outcome) + failure_of(
        Provider::Logger,
        l_outcome,
    ) + failure_of(Provider::Meter, m_outcome));
    failures
}

/// What an exporter for a configuration is given is what the configuration
/// says. The endpoint, whatever it is, comes through as it is; it is empty only
/// where none is configured, or an empty one. An export is given ten seconds.
/// Over HTTP all headers go along, over gRPC those that can be metadata.
pub proof fn law_exporter_gets_configuration(setup: ExportSetup, config: &OtelConfig)
    requires
        setup_fits(setup, config@),
    ensures
        match setup {
            ExportSetup::Grpc { endpoint, timeout_secs, metadata } => {
                &&& config.protocol == OtelProtocol::Grpc
                &&& config.endpoint matches Some(s) ==> endpoint == s@
                &&& config.endpoint is None ==> endpoint.len() == 0
                &&& timeout_secs == 10
                &&& are_entries_of(metadata, config.headers@)
            },
            ExportSetup::Http { endpoint, timeout_secs, headers } => {
                &&& config.protocol == OtelProtocol::HttpProtobuf
                &&& config.endpoint matches Some(s) ==> endpoint == s@
                &&& config.endpoint is None ==> endpoint.len() == 0
                &&& timeout_secs == 10
                &&& headers == config.headers@
            },
        },
{
}

/// The other way round: whatever is given to an exporter as a configuration
/// says fits it.
pub proof fn law_configuration_is_given(config: &OtelConfig, metadata: Map<Seq<char>, Seq<u8>>)
    ensures
        ({
            let endpoint = match config.endpoint {
                Some(s) => s@,
                None => Seq::empty(),
            };
            &&& config.protocol == OtelProtocol::HttpProtobuf ==> setup_fits(
                ExportSetup::Http { endpoint, timeout_secs: 10, headers: config.headers@ },
                config@,
            )
            &&& config.protocol == OtelProtocol::Grpc && are_entries_of(metadata, config.headers@)
                ==> setup_fits(ExportSetup::Grpc { endpoint, timeout_secs: 10, metadata }, config@)
        }),
{
}

/// What is given to an exporter that is built with `settings` is what they hold:
/// the endpoint as it is, or an empty one for none, the timeout, and the
/// metadata or the headers.
pub proof fn law_settings_are_handed_on(settings: ExportSettings)
    ensures
        match (settings, setup_of(settings)) {
            (
                ExportSettings::Grpc { endpoint, timeout_secs, metadata },
                ExportSetup::Grpc { endpoint: given, timeout_secs: secs, metadata: entries },
            ) => {
                &&& endpoint matches Some(s) ==> given == s@
                &&& endpoint is None ==> given.len() == 0
                &&& secs == timeout_secs
                &&& entries == metadata_entries(metadata)
            },
            (
                ExportSettings::Http { endpoint, timeout_secs, headers },
                ExportSetup::Http { endpoint: given, timeout_secs: secs, headers: sent },
            ) => {
                &&& endpoint matches Some(s) ==> given == s@
                &&& endpoint is None ==> given.len() == 0
                &&& secs == timeout_secs
                &&& sent == pairs_map(headers@)
            },
            _ => false,
        },
{
}

/// The settings for a configuration hold its protocol, its endpoint as it is,
/// ten seconds for an export, and its headers.
pub proof fn law_settings_hold_configuration(settings: ExportSettings, config: &OtelConfig)
    requires
        settings_fit(settings, config@),
    ensures
        match settings {
            ExportSettings::Grpc { endpoint, timeout_secs, metadata } => {
                &&& config.protocol == OtelProtocol::Grpc
                &&& endpoint is Some <==> config.endpoint is Some
                &&& config.endpoint matches Some(s) ==> (endpoint matches Some(t) && t@ == s@)
                &&& timeout_secs == 10
                &&& are_entries_of(metadata_entries(metadata), config.headers@)
            },
            ExportSettings::Http { endpoint, timeout_secs, headers } => {
                &&& config.protocol == OtelProtocol::HttpProtobuf
                &&& endpoint is Some <==> config.endpoint is Some
                &&& config.endpoint matches Some(s) ==> (endpoint matches Some(t) && t@ == s@)
                &&& timeout_secs == 10
                &&& pairs_map(headers@) == config.headers@
            },
        },
{
}

proof fn lemma_named(config: &OtelConfig, texts: Map<Seq<char>, Seq<char>>)
    requires
        service_attributes(config@.service_name, config.resource_attributes@).submap_of(texts),
    ensures
        forall|key: Seq<char>| #[trigger]
            pairs_map(config.resource_attributes@).dom().contains(key) ==> texts.dom().contains(key)
                && texts[key] == pairs_map(config.resource_attributes@)[key],
        !pairs_map(config.resource_attributes@).dom().contains("service.name"@)
            ==> texts.dom().contains("service.name"@) && texts["service.name"@]
            == config.service_name@,
{
    let attributes = service_attributes(config@.service_name, config.resource_attributes@);
    assert(attributes.dom().contains("service.name"@));
    assert forall|key: Seq<char>| #[trigger]
        pairs_map(config.resource_attributes@).dom().contains(key) implies texts.dom().contains(key)
        && texts[key] == pairs_map(config.resource_attributes@)[key] by {
        assert(attributes.dom().contains(key));
        assert(attributes[key] == pairs_map(config.resource_attributes@)[key]);
    }
}

/// A pipeline exports each signal to the endpoint of its configuration, by its
/// protocol, with its headers, and as its service. Its tracer and its meter are
/// those of its own providers, in the scope `penguind`.
pub proof fn law_pipeline_serves_configuration(pipeline: &OtelPipeline, config: &OtelConfig)
    requires
        pipeline.serves(config),
    ensures
        ({
            let traces = tracer_provider_setup(pipeline.spec_tracer_provider());
            let logs = logger_provider_setup(pipeline.spec_logger_provider());
            let metrics = meter_provider_setup(pipeline.spec_meter_provider());
            let given = |setup: ExportSetup|
                match setup {
                    ExportSetup::Grpc { endpoint, timeout_secs, metadata } => {
                        &&& config.protocol == OtelProtocol::Grpc
                        &&& config.endpoint matches Some(s) ==> endpoint == s@
                        &&& config.endpoint is None ==> endpoint.len() == 0
                        &&& timeout_secs == 10
                        &&& are_entries_of(metadata, config.headers@)
                    },
                    ExportSetup::Http { endpoint, timeout_secs, headers } => {
                        &&& config.protocol == OtelProtocol::HttpProtobuf
                        &&& config.endpoint matches Some(s) ==> endpoint == s@
                        &&& config.endpoint is None ==> endpoint.len() == 0
                        &&& timeout_secs == 10
                        &&& headers == config.headers@
                    },
                };
            let named = |texts: Map<Seq<char>, Seq<char>>|
                {
                    &&& forall|key: Seq<char>| #[trigger]
                        pairs_map(config.resource_attributes@).dom().contains(key)
                            ==> texts.dom().contains(key) && texts[key] == pairs_map(
                            config.resource_attributes@,
                        )[key]
                    &&& !pairs_map(config.resource_attributes@).dom().contains("service.name"@)
                        ==> texts.dom().contains("service.name"@) && texts["service.name"@]
                        == config.service_name@
                };
            &&& given(traces.0) && given(logs.0) && given(metrics.0)
            &&& named(traces.1) && named(logs.1) && named(metrics.1)
            &&& tracer_request(pipeline.spec_tracer()) == (traces, "penguind"@)
            &&& meter_request(pipeline.spec_meter()) == (metrics, "penguind"@)
        }),
{
    lemma_named(config, tracer_provider_setup(pipeline.spec_tracer_provider()).1);
    lemma_named(config, logger_provider_setup(pipeline.spec_logger_provider()).1);
    lemma_named(config, meter_provider_setup(pipeline.spec_meter_provider()).1);
}

/// The text of a failure to build an exporter names its protocol and its signal
/// and gives the reason.
pub proof fn law_build_failure_texts(reason: Seq<char>)
    ensures
        build_failure(OtelProtocol::Grpc, Signal::Span, reason)
            == "build otlp/grpc span exporter: "@ + reason,
        build_failure(OtelProtocol::Grpc, Signal::Log, reason) == "build otlp/grpc log exporter: "@
            + reason,
        build_failure(OtelProtocol::Grpc, Signal::Metric, reason)
            == "build otlp/grpc metric exporter: "@ + reason,
        build_failure(OtelProtocol::HttpProtobuf, Signal::Span, reason)
            == "build otlp/http span exporter: "@ + reason,
        build_failure(OtelProtocol::HttpProtobuf, Signal::Log, reason)
            == "build otlp/http log exporter: "@ + reason,
        build_failure(OtelProtocol::HttpProtobuf, Signal::Metric, reason)
            == "build otlp/http metric exporter: "@ + reason,
{
    reveal_strlit("build otlp/");
    reveal_strlit("grpc");
    reveal_strlit("http");
    reveal_strlit(" ");
    reveal_strlit("span");
    reveal_strlit("log");
    reveal_strlit("metric");
    reveal_strlit(" exporter: ");
    reveal_strlit("build otlp/grpc span exporter: ");
    reveal_strlit("build otlp/grpc log exporter: ");
    reveal_strlit("build otlp/grpc metric exporter: ");
    reveal_strlit("build otlp/http span exporter: ");
    reveal_strlit("build otlp/http log exporter: ");
    reveal_strlit("build otlp/http metric exporter: ");
}

/// A failure to build is that of an exporter which was given the configured
/// endpoint: the text names the exporter and ends in its reason. The exporters
/// of the signals before it were built.
pub proof fn law_build_failure_is_an_exporters(error: TelemetryError, config: &OtelConfig)
    requires
        is_build_failure(error, config@),
    ensures
        exists|setup: ExportSetup, reason: Seq<char>|
            #![trigger span_refused(setup, reason)]
            #![trigger log_refused(setup, reason)]
            #![trigger metric_refused(setup, reason)]
            {
                let protocol = if config.protocol == OtelProtocol::Grpc {
                    "grpc"@
                } else {
                    "http"@
                };
                let span_built = exists|exporter: SpanExporter| #[trigger]
                    span_setup(exporter) == setup;
                let log_built = exists|exporter: LogExporter| #[trigger]
                    log_setup(exporter) == setup;
                &&& match setup {
                    ExportSetup::Grpc { endpoint, .. } => {
                        &&& config.protocol == OtelProtocol::Grpc
                        &&& config.endpoint matches Some(s) ==> endpoint == s@
                        &&& config.endpoint is None ==> endpoint.len() == 0
                    },
                    ExportSetup::Http { endpoint, .. } => {
                        &&& config.protocol == OtelProtocol::HttpProtobuf
                        &&& config.endpoint matches Some(s) ==> endpoint == s@
                        &&& config.endpoint is None ==> endpoint.len() == 0
                    },
                }
                &&& {
                    ||| span_refused(setup, reason) && error.0@ == "build otlp/"@ + protocol + " "@
                        + "span"@ + " exporter: "@ + reason
                    ||| span_built && log_refused(setup, reason) && error.0@ == "build otlp/"@
                        + protocol + " "@ + "log"@ + " exporter: "@ + reason
                    ||| span_built && log_built && metric_refused(setup, reason) && error.0@
                        == "build otlp/"@ + protocol + " "@ + "metric"@ + " exporter: "@ + reason
                }
            },
{
    let (signal, setup, reason) = choose|signal: Signal, setup: ExportSetup, reason: Seq<char>|
        #[trigger] exporter_refused(signal, setup, reason) && setup_fits(setup, config@) && error.0@
            == build_failure(config.protocol, signal, reason);
    law_exporter_gets_configuration(setup, config);
    match signal {
        Signal::Span => {
            assert(span_refused(setup, reason));
        },
        Signal::Log => {
            assert(log_refused(setup, reason));
        },
        Signal::Metric => {
            assert(metric_refused(setup, reason));
        },
    }
}

/// There is always room for headers over HTTP, and over gRPC for up to 6553.
pub proof fn law_room_for_headers(config: &OtelConfig)
    ensures
        headers_fit(config@) <==> config.protocol == OtelProtocol::HttpProtobuf
            || config.headers@.dom().len() <= 6553,
        too_many_headers() == "build otlp/grpc metadata: too many headers"@,
{
}

/// The shutdown of a pipeline reports each provider that fails, with its reason,
/// and no other, in the order tracer, logger, meter.
pub proof fn law_shutdown_reports_every_failure(
    tracer: Result<(), String>,
    logger: Result<(), String>,
    meter: Result<(), String>,
)
    ensures
        ({
            let failures = failure_of(Provider::Tracer, tracer) + failure_of(
                Provider::Logger,
                logger,
            ) + failure_of(Provider::Meter, meter);
            let outcome = |provider: Provider|
                match provider {
                    Provider::Tracer => tracer,
                    Provider::Logger => logger,
                    Provider::Meter => meter,
                };
            let place = |provider: Provider|
                match provider {
                    Provider::Tracer => 0int,
                    Provider::Logger => 1int,
                    Provider::Meter => 2int,
                };
            &&& forall|i: int|
                0 <= i < failures.len() ==> outcome((#[trigger] failures[i]).provider) == Err::<
                    (),
                    String,
                >(failures[i].reason)
            &&& forall|provider: Provider|
                (#[trigger] outcome(provider)) is Err ==> exists|i: int|
                    0 <= i < failures.len() && (#[trigger] failures[i]).provider == provider
            &&& forall|i: int, j: int|
                0 <= i < j < failures.len() ==> place((#[trigger] failures[i]).provider) < place(
                    (#[trigger] failures[j]).provider,
                )
        }),
{
    let t = failure_of(Provider::Tracer, tracer);
    let l = failure_of(Provider::Logger, logger);
    let m = failure_of(Provider::Meter, meter);
    let failures = t + l + m;
    if let Err(_) = tracer {
        assert(failures[0] == t[0]);
    }
    if let Err(_) = logger {
        assert(failures[t.len() as int] == l[0]);
    }
    if let Err(_) = meter {
        assert(failures[(t.len() + l.len()) as int] == m[0]);
    }
}

} // verus!
