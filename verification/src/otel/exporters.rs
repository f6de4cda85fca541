//! The exporters and providers of OTLP export, as the outside crates make
//! them.

use crate::kv::pairs_map;
use crate::metadata::{metadata_entries, MAX_HEADERS};
use crate::otel::config::OtelConfig;
use opentelemetry::metrics::{Meter, MeterProvider};
use opentelemetry::trace::TracerProvider;
use opentelemetry::KeyValue;
use opentelemetry_otlp::{
    LogExporter, MetricExporter, SpanExporter, WithExportConfig, WithHttpConfig, WithTonicConfig,
};
use opentelemetry_sdk::logs::SdkLoggerProvider;
use opentelemetry_sdk::metrics::{PeriodicReader, SdkMeterProvider};
use opentelemetry_sdk::trace::{SdkTracer, SdkTracerProvider};
use opentelemetry_sdk::Resource;
use std::time::Duration;
use tokio::runtime::Handle;
use tonic::metadata::MetadataMap;
use vstd::prelude::*;

verus! {

#[verifier::external_type_specification]
#[verifier::external_body]
pub struct ExSpanExporter(opentelemetry_otlp::SpanExporter);

#[verifier::external_type_specification]
#[verifier::external_body]
pub struct ExLogExporter(opentelemetry_otlp::LogExporter);

#[verifier::external_type_specification]
#[verifier::external_body]
pub struct ExMetricExporter(opentelemetry_otlp::MetricExporter);

#[verifier::external_type_specification]
#[verifier::external_body]
pub struct ExResource(opentelemetry_sdk::Resource);

#[verifier::external_type_specification]
#[verifier::external_body]
pub struct ExSdkTracerProvider(opentelemetry_sdk::trace::SdkTracerProvider);

#[verifier::external_type_specification]
#[verifier::external_body]
pub struct ExSdkTracer(opentelemetry_sdk::trace::SdkTracer);

#[verifier::external_type_specification]
#[verifier::external_body]
pub struct ExSdkLoggerProvider(opentelemetry_sdk::logs::SdkLoggerProvider);

#[verifier::external_type_specification]
#[verifier::external_body]
pub struct ExSdkMeterProvider(opentelemetry_sdk::metrics::SdkMeterProvider);

#[verifier::external_type_specification]
#[verifier::external_body]
pub struct ExMeter(opentelemetry::metrics::Meter);

#[verifier::external_type_specification]
#[verifier::external_body]
pub struct ExHandle(tokio::runtime::Handle);

/// The attributes of `resource` that are texts.
pub uninterp spec fn resource_texts(resource: opentelemetry_sdk::Resource) -> Map<
    Seq<char>,
    Seq<char>,
>;

/// The attributes that a service of this name is to have: `service.name`, and
/// `attributes`, which count before it.
pub open spec fn service_attributes(name: Seq<char>, attributes: Seq<(String, String)>) -> Map<
    Seq<char>,
    Seq<char>,
> {
    Map::empty().insert("service.name"@, name).union_prefer_right(pairs_map(attributes))
}

/// `ResourceBuilder` of opentelemetry-sdk with a service name and attributes:
/// they are among what the resource holds, the attributes before the name.
/// What else it holds is detected in the environment.
#[verifier::external_body]
fn resource_of(name: &str, attributes: &Vec<(String, String)>) -> (r: Resource)
    ensures
        service_attributes(name@, attributes@).submap_of(resource_texts(r)),
{
    let pairs = attributes.iter().map(|pair| KeyValue::new(pair.0.clone(), pair.1.clone()));
    Resource::builder().with_service_name(name.to_string()).with_attributes(pairs).build()
}

/// The identity attached to everything that is exported for `config`.
pub fn build_resource(config: &OtelConfig) -> (r: Resource)
    ensures
        service_attributes(config@.service_name, config.resource_attributes@).submap_of(
            resource_texts(r),
        ),
{
    resource_of(config.service_name.as_str(), &config.resource_attributes)
}

/// What an exporter is built with. An empty endpoint leaves the choice to the
/// exporter.
pub enum ExportSetup {
    Grpc { endpoint: Seq<char>, timeout_secs: u64, metadata: Map<Seq<char>, Seq<u8>> },
    Http { endpoint: Seq<char>, timeout_secs: u64, headers: Map<Seq<char>, Seq<char>> },
}

/// What the builder of `exporter` was given.
pub uninterp spec fn span_setup(exporter: opentelemetry_otlp::SpanExporter) -> ExportSetup;

/// What the builder of `exporter` was given.
pub uninterp spec fn log_setup(exporter: opentelemetry_otlp::LogExporter) -> ExportSetup;

/// What the builder of `exporter` was given.
pub uninterp spec fn metric_setup(exporter: opentelemetry_otlp::MetricExporter) -> ExportSetup;

/// What the builder of the exporter of `provider` was given, and the attributes
/// of its resource that are texts.
pub uninterp spec fn tracer_provider_setup(
    provider: opentelemetry_sdk::trace::SdkTracerProvider,
) -> (ExportSetup, Map<Seq<char>, Seq<char>>);

/// What the builder of the exporter of `provider` was given, and the attributes
/// of its resource that are texts.
pub uninterp spec fn logger_provider_setup(
    provider: opentelemetry_sdk::logs::SdkLoggerProvider,
) -> (ExportSetup, Map<Seq<char>, Seq<char>>);

/// What the builder of the exporter of `provider` was given, and the attributes
/// of its resource that are texts.
pub uninterp spec fn meter_provider_setup(
    provider: opentelemetry_sdk::metrics::SdkMeterProvider,
) -> (ExportSetup, Map<Seq<char>, Seq<char>>);

/// Whether building an exporter of spans with `setup` fails, at some time, for
/// the reason `reason`.
pub uninterp spec fn span_refused(setup: ExportSetup, reason: Seq<char>) -> bool;

/// Whether building an exporter of logs with `setup` fails, at some time, for
/// the reason `reason`.
pub uninterp spec fn log_refused(setup: ExportSetup, reason: Seq<char>) -> bool;

/// Whether building an exporter of metrics with `setup` fails, at some time,
/// for the reason `reason`.
pub uninterp spec fn metric_refused(setup: ExportSetup, reason: Seq<char>) -> bool;

/// The setup of the provider that `tracer` was asked from, and the scope that it
/// was asked for.
pub uninterp spec fn tracer_request(tracer: opentelemetry_sdk::trace::SdkTracer) -> (
    (ExportSetup, Map<Seq<char>, Seq<char>>),
    Seq<char>,
);

/// The setup of the provider that `meter` was asked from, and the scope that it
/// was asked for.
pub uninterp spec fn meter_request(meter: opentelemetry::metrics::Meter) -> (
    (ExportSetup, Map<Seq<char>, Seq<char>>),
    Seq<char>,
);

/// Whether there is room for `metadata` beside the header that an exporter
/// sends by itself.
pub open spec fn leaves_room(metadata: tonic::metadata::MetadataMap) -> bool {
    &&& metadata_entries(metadata).dom().finite()
    &&& metadata_entries(metadata).dom().len() < MAX_HEADERS
}

/// `SpanExporterBuilder::build` of opentelemetry-otlp for gRPC, and the text of
/// its error. An empty endpoint leaves the choice to the exporter. The
/// connection is made later, on `runtime`. An exporter that comes out was given
/// these settings, and an error is one of building with them. Whether one comes out depends on the environment too, and so
/// do the headers that it sends besides.
#[verifier::external_body]
pub(crate) fn grpc_span_exporter(
    runtime: &Handle,
    endpoint: &str,
    timeout_secs: u64,
    metadata: &MetadataMap,
) -> (r: Result<SpanExporter, String>)
    requires
        leaves_room(*metadata),
    ensures
        ({
            let setup = ExportSetup::Grpc {
                endpoint: endpoint@,
                timeout_secs,
                metadata: metadata_entries(*metadata),
            };
            match r {
                Ok(exporter) => span_setup(exporter) == setup,
                Err(reason) => span_refused(setup, reason@),
            }
        }),
{
    let _guard = runtime.enter();
    SpanExporter::builder()
        .with_tonic()
        .with_timeout(Duration::from_secs(timeout_secs))
        .with_metadata(metadata.clone())
        .with_endpoint(endpoint)
        .build()
        .map_err(|error| error.to_string())
}

/// `LogExporterBuilder::build` of opentelemetry-otlp for gRPC, and the text of
/// its error. An empty endpoint leaves the choice to the exporter. The
/// connection is made later, on `runtime`. An exporter that comes out was given
/// these settings, and an error is one of building with them. Whether one comes out depends on the environment too, and so
/// do the headers that it sends besides.
#[verifier::external_body]
pub(crate) fn grpc_log_exporter(
    runtime: &Handle,
    endpoint: &str,
    timeout_secs: u64,
    metadata: &MetadataMap,
) -> (r: Result<LogExporter, String>)
    requires
        leaves_room(*metadata),
    ensures
        ({
            let setup = ExportSetup::Grpc {
                endpoint: endpoint@,
                timeout_secs,
                metadata: metadata_entries(*metadata),
            };
            match r {
                Ok(exporter) => log_setup(exporter) == setup,
                Err(reason) => log_refused(setup, reason@),
            }
        }),
{
    let _guard = runtime.enter();
    LogExporter::builder()
        .with_tonic()
        .with_timeout(Duration::from_secs(timeout_secs))
        .with_metadata(metadata.clone())
        .with_endpoint(endpoint)
        .build()
        .map_err(|error| error.to_string())
}

/// `MetricExporterBuilder::build` of opentelemetry-otlp for gRPC, and the text
/// of its error. An empty endpoint leaves the choice to the exporter. The
/// connection is made later, on `runtime`. An exporter that comes out was given
/// these settings, and an error is one of building with them. Whether one comes out depends on the environment too, and so
/// do the headers that it sends besides.
#[verifier::external_body]
pub(crate) fn grpc_metric_exporter(
    runtime: &Handle,
    endpoint: &str,
    timeout_secs: u64,
    metadata: &MetadataMap,
) -> (r: Result<MetricExporter, String>)
    requires
        leaves_room(*metadata),
    ensures
        ({
            let setup = ExportSetup::Grpc {
                endpoint: endpoint@,
                timeout_secs,
                metadata: metadata_entries(*metadata),
            };
            match r {
                Ok(exporter) => metric_setup(exporter) == setup,
                Err(reason) => metric_refused(setup, reason@),
            }
        }),
{
    let _guard = runtime.enter();
    MetricExporter::builder()
        .with_tonic()
        .with_timeout(Duration::from_secs(timeout_secs))
        .with_metadata(metadata.clone())
        .with_endpoint(endpoint)
        .build()
        .map_err(|error| error.to_string())
}

/// `SpanExporterBuilder::build` of opentelemetry-otlp for HTTP, and the text of
/// its error. An empty endpoint leaves the choice to the exporter. An exporter
/// that comes out was given these settings, and an error is one of building with
/// them. Whether one comes out depends on the
/// environment too, and so do the headers that it sends besides.
#[verifier::external_body]
pub(crate) fn http_span_exporter(
    endpoint: &str,
    timeout_secs: u64,
    headers: &Vec<(String, String)>,
) -> (r: Result<SpanExporter, String>)
    ensures
        ({
            let setup = ExportSetup::Http {
                endpoint: endpoint@,
                timeout_secs,
                headers: pairs_map(headers@),
            };
            match r {
                Ok(exporter) => span_setup(exporter) == setup,
                Err(reason) => span_refused(setup, reason@),
            }
        }),
{
    SpanExporter::builder()
        .with_http()
        .with_timeout(Duration::from_secs(timeout_secs))
        .with_headers(headers.iter().cloned().collect())
        .with_endpoint(endpoint)
        .build()
        .map_err(|error| error.to_string())
}

/// `LogExporterBuilder::build` of opentelemetry-otlp for HTTP, and the text of
/// its error. An empty endpoint leaves the choice to the exporter. An exporter
/// that comes out was given these settings, and an error is one of building with
/// them. Whether one comes out depends on the
/// environment too, and so do the headers that it sends besides.
#[verifier::external_body]
pub(crate) fn http_log_exporter(
    endpoint: &str,
    timeout_secs: u64,
    headers: &Vec<(String, String)>,
) -> (r: Result<LogExporter, String>)
    ensures
        ({
            let setup = ExportSetup::Http {
                endpoint: endpoint@,
                timeout_secs,
                headers: pairs_map(headers@),
            };
            match r {
                Ok(exporter) => log_setup(exporter) == setup,
                Err(reason) => log_refused(setup, reason@),
            }
        }),
{
    LogExporter::builder()
        .with_http()
        .with_timeout(Duration::from_secs(timeout_secs))
        .with_headers(headers.iter().cloned().collect())
        .with_endpoint(endpoint)
        .build()
        .map_err(|error| error.to_string())
}

/// `MetricExporterBuilder::build` of opentelemetry-otlp for HTTP, and the text
/// of its error. An empty endpoint leaves the choice to the exporter. An
/// exporter that comes out was given these settings, and an error is one of
/// building with them. Whether one comes out
/// depends on the environment too, and so do the headers that it sends besides.
#[verifier::external_body]
pub(crate) fn http_metric_exporter(
    endpoint: &str,
    timeout_secs: u64,
    headers: &Vec<(String, String)>,
) -> (r: Result<MetricExporter, String>)
    ensures
        ({
            let setup = ExportSetup::Http {
                endpoint: endpoint@,
                timeout_secs,
                headers: pairs_map(headers@),
            };
            match r {
                Ok(exporter) => metric_setup(exporter) == setup,
                Err(reason) => metric_refused(setup, reason@),
            }
        }),
{
    MetricExporter::builder()
        .with_http()
        .with_timeout(Duration::from_secs(timeout_secs))
        .with_headers(headers.iter().cloned().collect())
        .with_endpoint(endpoint)
        .build()
        .map_err(|error| error.to_string())
}

/// `TracerProviderBuilder::build` of opentelemetry-sdk, with a batching
/// processor: the provider exports by `exporter`, as what `resource` says. How
/// it batches is left unsaid.
#[verifier::external_body]
pub(crate) fn tracer_provider(exporter: SpanExporter, resource: &Resource) -> (r: SdkTracerProvider)
    ensures
        tracer_provider_setup(r) == (span_setup(exporter), resource_texts(*resource)),
{
    SdkTracerProvider::builder()
        .with_batch_exporter(exporter)
        .with_resource(resource.clone())
        .build()
}

/// `TracerProvider::tracer` of opentelemetry: a tracer that was asked from
/// `provider` for the scope `name`. Once `provider` is shut down, such a tracer
/// exports nothing.
#[verifier::external_body]
pub(crate) fn tracer_named(provider: &SdkTracerProvider, name: &'static str) -> (r: SdkTracer)
    ensures
        tracer_request(r) == (tracer_provider_setup(*provider), name@),
{
    provider.tracer(name)
}

/// `LoggerProviderBuilder::build` of opentelemetry-sdk, with a batching
/// processor: the provider exports by `exporter`, as what `resource` says. How
/// it batches is left unsaid.
#[verifier::external_body]
pub(crate) fn logger_provider(exporter: LogExporter, resource: &Resource) -> (r: SdkLoggerProvider)
    ensures
        logger_provider_setup(r) == (log_setup(exporter), resource_texts(*resource)),
{
    SdkLoggerProvider::builder()
        .with_batch_exporter(exporter)
        .with_resource(resource.clone())
        .build()
}

/// `MeterProviderBuilder::build` of opentelemetry-sdk, with a periodic reader:
/// the provider exports by `exporter`, as what `resource` says. How often it
/// does is left unsaid.
#[verifier::external_body]
pub(crate) fn meter_provider(exporter: MetricExporter, resource: &Resource) -> (r: SdkMeterProvider)
    ensures
        meter_provider_setup(r) == (metric_setup(exporter), resource_texts(*resource)),
{
    SdkMeterProvider::builder()
        .with_reader(PeriodicReader::builder(exporter).build())
        .with_resource(resource.clone())
        .build()
}

/// `MeterProvider::meter` of opentelemetry: a meter that was asked from
/// `provider` for the scope `name`. Once `provider` is shut down, such a meter
/// does nothing.
#[verifier::external_body]
pub(crate) fn meter_named(provider: &SdkMeterProvider, name: &'static str) -> (r: Meter)
    ensures
        meter_request(r) == (meter_provider_setup(*provider), name@),
{
    provider.meter(name)
}

/// A service has the attributes that it is given. Its name is the attribute
/// `service.name`, unless that is given. It has no others.
pub proof fn law_service_attributes(
    name: Seq<char>,
    attributes: Seq<(String, String)>,
    key: Seq<char>,
)
    ensures
        ({
            let texts = service_attributes(name, attributes);
            let given = pairs_map(attributes);
            &&& texts.dom().contains(key) <==> given.dom().contains(key) || key == "service.name"@
            &&& given.dom().contains(key) ==> texts[key] == given[key]
            &&& !given.dom().contains("service.name"@) ==> texts["service.name"@] == name
        }),
{
}

} // verus!
