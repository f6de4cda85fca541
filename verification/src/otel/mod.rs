//! OTLP export: its configuration, and the pipeline that it is done by.

pub mod config;
pub mod exporters;
pub mod pipeline;

pub use config::{non_empty_env, OtelConfig, OtelEnv, OtelProtocol};
pub use exporters::build_resource;
pub use pipeline::{
    build_exporters, build_or_degrade, degrade, export_settings, exporter_result, init, shutdown,
    skipped_headers, ExportSettings, OtelPipeline, Provider, ShutdownFailure, Signal,
    EXPORT_TIMEOUT_SECS, OTEL_SHUTDOWN_BUDGET_SECS,
};
