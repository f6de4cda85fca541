use penguin::kv::{parse_kv_list, KvMap};
use penguin::metadata::{build_tonic_metadata, unparseable_headers};
use penguin::otel::{
    build_exporters, build_or_degrade, build_resource, degrade, export_settings, exporter_result,
    init, non_empty_env, shutdown, skipped_headers, ExportSettings, OtelConfig, OtelEnv,
    OtelPipeline, OtelProtocol, Provider, ShutdownFailure, Signal, EXPORT_TIMEOUT_SECS,
    OTEL_SHUTDOWN_BUDGET_SECS,
};
use penguin::telemetry::TelemetryError;
use tokio::runtime::Runtime;

fn runtime() -> Runtime {
    Runtime::new().expect("runtime")
}

fn test_config(endpoint: &str, protocol: OtelProtocol) -> OtelConfig {
    OtelConfig {
        endpoint: Some(endpoint.to_string()),
        protocol,
        headers: KvMap::new(),
        service_name: "penguind-test".to_string(),
        resource_attributes: vec![],
    }
}

fn stop(pipeline: &OtelPipeline) -> Vec<ShutdownFailure> {
    shutdown(
        || pipeline.tracer_provider().shutdown().map_err(|error| error.to_string()),
        || pipeline.logger_provider().shutdown().map_err(|error| error.to_string()),
        || pipeline.meter_provider().shutdown().map_err(|error| error.to_string()),
    )
}

fn config(protocol: OtelProtocol, headers: KvMap) -> OtelConfig {
    OtelConfig {
        endpoint: Some("http://127.0.0.1:4317".to_string()),
        protocol,
        headers,
        service_name: "penguind".to_string(),
        resource_attributes: vec![],
    }
}

#[test]
fn protocol_parse_defaults_to_grpc() {
    assert_eq!(OtelProtocol::parse(None), OtelProtocol::Grpc);
    assert_eq!(OtelProtocol::parse(Some("")), OtelProtocol::Grpc);
    assert_eq!(OtelProtocol::parse(Some("grpc")), OtelProtocol::Grpc);
    assert_eq!(OtelProtocol::parse(Some("bogus")), OtelProtocol::Grpc);
    assert_eq!(OtelProtocol::parse(Some("http/json")), OtelProtocol::Grpc);
}

#[test]
fn protocol_parse_selects_http_protobuf_exactly() {
    assert_eq!(OtelProtocol::parse(Some("http/protobuf")), OtelProtocol::HttpProtobuf);
    assert_eq!(OtelProtocol::parse(Some("  http/protobuf  ")), OtelProtocol::HttpProtobuf);
}

#[test]
fn protocol_parse_trims_unicode_white_space_and_keeps_case() {
    assert_eq!(
        OtelProtocol::parse(Some("\u{3000}\t\nhttp/protobuf\u{a0}")),
        OtelProtocol::HttpProtobuf
    );
    assert_eq!(OtelProtocol::parse(Some("HTTP/protobuf")), OtelProtocol::Grpc);
}

#[test]
fn parse_kv_list_handles_the_empty_and_absent_cases() {
    assert!(parse_kv_list(None).is_empty());
    assert!(parse_kv_list(Some("")).is_empty());
    assert!(parse_kv_list(Some("   ")).is_empty());
}

#[test]
fn parse_kv_list_parses_multiple_pairs() {
    let parsed = parse_kv_list(Some("deployment.environment=beta,team=platform"));
    assert_eq!(parsed.len(), 2);
    assert_eq!(parsed.get("deployment.environment").unwrap(), "beta");
    assert_eq!(parsed.get("team").unwrap(), "platform");
}

#[test]
fn parse_kv_list_splits_only_on_the_first_equals() {
    let parsed = parse_kv_list(Some("authorization=Bearer abc.def=="));
    assert_eq!(parsed.get("authorization").unwrap(), "Bearer abc.def==");
}

#[test]
fn parse_kv_list_trims_whitespace_and_skips_malformed_pairs() {
    let parsed = parse_kv_list(Some(" a = b , , novalue , c=d "));
    assert_eq!(parsed.len(), 2);
    assert_eq!(parsed.get("a").unwrap(), "b");
    assert_eq!(parsed.get("c").unwrap(), "d");
    assert!(!parsed.contains_key("novalue"));
}

#[test]
fn the_last_value_of_a_key_counts() {
    let parsed = parse_kv_list(Some("a=1,b=2,a=3,=4, =5,c="));
    assert_eq!(parsed.len(), 3);
    assert_eq!(parsed.get("a").unwrap(), "3");
    assert_eq!(parsed.get("b").unwrap(), "2");
    assert_eq!(parsed.get("c").unwrap(), "");
    assert_eq!(parsed.get(""), None);
    assert_eq!(
        parsed.into_entries(),
        vec![
            ("a".to_string(), "3".to_string()),
            ("b".to_string(), "2".to_string()),
            ("c".to_string(), "".to_string()),
        ]
    );
}

#[test]
fn lists_concatenate() {
    let whole = parse_kv_list(Some("a=1,b=2,b=3,c=4"));
    let mut parts = parse_kv_list(Some("a=1,b=2"));
    for (key, value) in parse_kv_list(Some("b=3,c=4")).into_entries() {
        parts.insert(key, value);
    }
    assert_eq!(whole.entries(), parts.entries());
}

#[test]
fn a_parsed_list_written_out_parses_back() {
    let parsed = parse_kv_list(Some(" b = 2 = 3,a=,  c d\t=\u{3000}x y , junk, =z, b=4=="));
    let mut pairs: Vec<String> =
        parsed.entries().iter().map(|(key, value)| format!("{key}={value}")).collect();
    assert_eq!(pairs, vec!["b=4==", "a=", "c d=x y"]);
    assert_eq!(parse_kv_list(Some(&pairs.join(","))).entries(), parsed.entries());
    pairs.reverse();
    let again = parse_kv_list(Some(&pairs.join(",")));
    assert_eq!(again.len(), parsed.len());
    for (key, value) in parsed.entries() {
        assert_eq!(again.get(key), Some(value));
    }
    assert!(parse_kv_list(Some("")).is_empty());
}

#[test]
fn config_debug_redacts_header_values() {
    let mut headers = KvMap::new();
    headers.insert("authorization".to_string(), "Bearer super-secret".to_string());
    let config = config(OtelProtocol::Grpc, headers);
    let rendered = config.debug_text();
    assert!(!rendered.contains("super-secret"));
    assert!(rendered.contains("1 redacted"));
}

#[test]
fn config_debug_shows_the_rest() {
    let shown = OtelConfig {
        endpoint: None,
        protocol: OtelProtocol::HttpProtobuf,
        headers: KvMap::new(),
        service_name: "a \"b\"".to_string(),
        resource_attributes: vec![
            ("team".to_string(), "platform".to_string()),
            ("x".to_string(), "y".to_string()),
        ],
    };
    assert_eq!(
        shown.debug_text(),
        "OtelConfig { endpoint: None, protocol: HttpProtobuf, headers: \"<0 redacted>\", \
         service_name: \"a \\\"b\\\"\", resource_attributes: [(\"team\", \"platform\"), (\"x\", \"y\")] }"
    );
    let shown = config(OtelProtocol::Grpc, parse_kv_list(Some("a=1,b=2,c=3,d=4,e=5,f=6,g=7,h=8,i=9,j=10,k=11,l=12")));
    assert_eq!(
        shown.debug_text(),
        "OtelConfig { endpoint: Some(\"http://127.0.0.1:4317\"), protocol: Grpc, \
         headers: \"<12 redacted>\", service_name: \"penguind\", resource_attributes: [] }"
    );
}

#[test]
fn blank_variables_count_as_unset() {
    assert_eq!(non_empty_env(None), None);
    assert_eq!(non_empty_env(Some("".to_string())), None);
    assert_eq!(non_empty_env(Some(" \t".to_string())), None);
    assert_eq!(non_empty_env(Some(" x ".to_string())), Some(" x ".to_string()));
}

#[test]
fn from_env_reads_every_variable() {
    let config = OtelConfig::from_env(OtelEnv {
        endpoint: Some("http://c:4318".to_string()),
        protocol: Some(" http/protobuf".to_string()),
        headers: Some("authorization=Bearer x".to_string()),
        service_name: Some("svc".to_string()),
        resource_attributes: Some("a=1,b=2".to_string()),
    });
    assert_eq!(config.endpoint.as_deref(), Some("http://c:4318"));
    assert_eq!(config.protocol, OtelProtocol::HttpProtobuf);
    assert_eq!(config.headers.get("authorization").unwrap(), "Bearer x");
    assert_eq!(config.service_name, "svc");
    assert_eq!(
        config.resource_attributes,
        vec![
            ("a".to_string(), "1".to_string()),
            ("b".to_string(), "2".to_string()),
        ]
    );
}

#[test]
fn from_env_defaults_without_variables() {
    let config = OtelConfig::from_env(OtelEnv {
        endpoint: Some("".to_string()),
        protocol: None,
        headers: None,
        service_name: Some("  ".to_string()),
        resource_attributes: None,
    });
    assert_eq!(config.endpoint, None);
    assert_eq!(config.protocol, OtelProtocol::Grpc);
    assert!(config.headers.is_empty());
    assert_eq!(config.service_name, "penguind");
    assert!(config.resource_attributes.is_empty());
}

#[test]
fn init_disabled_returns_none() {
    let runtime = runtime();
    let pipeline = init(
        false,
        || unreachable!("nothing is read"),
        runtime.handle(),
        |_| unreachable!("nothing fails"),
    );
    assert!(pipeline.is_none());
}

#[test]
fn init_enabled_builds_cleanly_with_no_otel_env_vars_set() {
    let runtime = runtime();
    let read = || {
        OtelConfig::from_env(OtelEnv {
            endpoint: None,
            protocol: None,
            headers: None,
            service_name: None,
            resource_attributes: None,
        })
    };
    let pipeline = init(true, read, runtime.handle(), |error| panic!("{}", error.0))
        .expect("default config builds");
    stop(&pipeline);
}

#[test]
fn init_degrades_on_a_malformed_endpoint() {
    let runtime = runtime();
    let pipeline = init(
        true,
        || test_config("not a url at all", OtelProtocol::HttpProtobuf),
        runtime.handle(),
        |error| assert!(error.0.starts_with("build otlp/http span exporter: ")),
    );
    assert!(pipeline.is_none());
}

#[test]
fn init_degrades_on_more_headers_than_surely_fit() {
    let runtime = runtime();
    let read = || {
        let mut config = test_config("http://127.0.0.1:1", OtelProtocol::Grpc);
        for i in 0..6554 {
            config.headers.insert(format!("k{i}"), "v".to_string());
        }
        config
    };
    let pipeline = init(true, read, runtime.handle(), |error| {
        assert_eq!(error.0, "build otlp/grpc metadata: too many headers");
    });
    assert!(pipeline.is_none());
}

#[test]
fn build_succeeds_and_stays_usable_for_an_unreachable_grpc_endpoint() {
    let runtime = runtime();
    let config = test_config("http://127.0.0.1:1", OtelProtocol::Grpc);
    let pipeline = OtelPipeline::build(&config, runtime.handle())
        .unwrap_or_else(|error| panic!("{}", error.0));

    let histogram = pipeline.meter().f64_histogram("test_duration_seconds").build();
    histogram.record(0.01, &[]);

    stop(&pipeline);
}

#[test]
fn build_succeeds_for_an_unreachable_http_endpoint() {
    let runtime = runtime();
    let config = test_config("http://127.0.0.1:1", OtelProtocol::HttpProtobuf);
    let pipeline = OtelPipeline::build(&config, runtime.handle())
        .unwrap_or_else(|error| panic!("{}", error.0));
    stop(&pipeline);
}

#[test]
fn build_fails_gracefully_for_a_malformed_endpoint() {
    let runtime = runtime();
    let config = test_config("not a url at all", OtelProtocol::Grpc);
    let built = OtelPipeline::build(&config, runtime.handle());
    let Err(error) = built else { panic!("built") };
    assert!(error.0.starts_with("build otlp/grpc span exporter: "), "{}", error.0);
    assert!(error.0.contains("not a url at all"), "{}", error.0);
}

#[test]
fn build_or_degrade_returns_none_on_build_failure() {
    let runtime = runtime();
    let config = test_config("not a url at all", OtelProtocol::Grpc);
    assert!(build_or_degrade(&config, runtime.handle(), |_| ()).is_none());
}

#[test]
fn the_tracer_has_the_daemons_scope() {
    let runtime = runtime();
    let config = test_config("http://127.0.0.1:1", OtelProtocol::HttpProtobuf);
    let pipeline = OtelPipeline::build(&config, runtime.handle())
        .unwrap_or_else(|error| panic!("{}", error.0));
    assert!(format!("{:?}", pipeline.tracer()).contains("penguind"));
    stop(&pipeline);
}

#[test]
fn only_a_failure_is_warned_of() {
    assert_eq!(degrade(Ok(3), |_| unreachable!("nothing fails")), Some(3));
    let error = TelemetryError("x".to_string());
    assert_eq!(degrade::<u8, _>(Err(error), |error| assert_eq!(error.0, "x")), None);
}

#[test]
fn attributes_count_before_the_service_name() {
    let text = |config: &OtelConfig, key: &'static str| {
        build_resource(config).get(&opentelemetry::Key::new(key)).map(|value| value.to_string())
    };
    let mut config = test_config("", OtelProtocol::Grpc);
    assert_eq!(text(&config, "service.name").as_deref(), Some("penguind-test"));
    assert_eq!(text(&config, "team"), None);
    config.resource_attributes = vec![
        ("team".to_string(), "one".to_string()),
        ("team".to_string(), "platform".to_string()),
        ("service.name".to_string(), "other".to_string()),
    ];
    assert_eq!(text(&config, "service.name").as_deref(), Some("other"));
    assert_eq!(text(&config, "team").as_deref(), Some("platform"));
}

#[test]
fn exporters_are_built_in_order_until_one_fails() {
    let settings = export_settings(&config(OtelProtocol::HttpProtobuf, KvMap::new()));
    let built = build_exporters(
        OtelProtocol::HttpProtobuf,
        &settings,
        |_| Ok::<u8, String>(1),
        |_| Err::<u8, String>("no route".to_string()),
        |_| -> Result<u8, String> { unreachable!("the log exporter failed") },
    );
    assert_eq!(
        built,
        Err(TelemetryError("build otlp/http log exporter: no route".to_string()))
    );
    let built = build_exporters(
        OtelProtocol::HttpProtobuf,
        &settings,
        |_| Ok(1u8),
        |_| Ok('l'),
        |_| Ok("m"),
    );
    assert_eq!(built, Ok((1u8, 'l', "m")));
    assert_eq!(
        exporter_result::<u8>(OtelProtocol::Grpc, Signal::Metric, Err("x".to_string())),
        Err(TelemetryError("build otlp/grpc metric exporter: x".to_string()))
    );
}

#[test]
fn settings_follow_the_protocol() {
    let headers = || parse_kv_list(Some("authorization=Bearer abc==,x-team=platform"));
    let ExportSettings::Http { endpoint, timeout_secs, headers: sent } =
        export_settings(&config(OtelProtocol::HttpProtobuf, headers()))
    else {
        panic!("http")
    };
    assert_eq!(endpoint.as_deref(), Some("http://127.0.0.1:4317"));
    assert_eq!(timeout_secs, 10);
    assert_eq!(&sent, headers().entries());
    let ExportSettings::Grpc { metadata, timeout_secs, .. } =
        export_settings(&config(OtelProtocol::Grpc, headers()))
    else {
        panic!("grpc")
    };
    assert_eq!(timeout_secs, EXPORT_TIMEOUT_SECS);
    assert_eq!(metadata.len(), 2);
    assert_eq!(metadata.get("authorization").unwrap(), "Bearer abc==");
    assert!(OTEL_SHUTDOWN_BUDGET_SECS < 3 * EXPORT_TIMEOUT_SECS);
    assert_eq!(OTEL_SHUTDOWN_BUDGET_SECS, 8);
}

#[test]
fn tonic_metadata_skips_unparseable_entries_without_panicking() {
    let mut headers = KvMap::new();
    headers.insert("valid-key".to_string(), "valid-value".to_string());
    headers.insert("bad-key".to_string(), "line one\nline two".to_string());
    let metadata = build_tonic_metadata(&headers);
    assert!(metadata.get("valid-key").is_some());
    assert!(metadata.get("bad-key").is_none());
    assert_eq!(unparseable_headers(&headers), vec!["bad-key".to_string()]);
    assert_eq!(
        skipped_headers(&config(OtelProtocol::Grpc, headers)),
        vec!["bad-key".to_string()]
    );
}

#[test]
fn tonic_metadata_keys_are_lowercase_tokens() {
    let mut headers = KvMap::new();
    headers.insert("X-Team".to_string(), "caf\u{e9}\t1".to_string());
    headers.insert("trace-BIN".to_string(), "v".to_string());
    headers.insert("".to_string(), "v".to_string());
    headers.insert("two words".to_string(), "v".to_string());
    headers.insert("a:b".to_string(), "v".to_string());
    headers.insert("caf\u{e9}".to_string(), "v".to_string());
    headers.insert("!#$%&'*+-.^_`|~09".to_string(), "v".to_string());
    headers.insert("del".to_string(), "\u{7f}".to_string());
    let metadata = build_tonic_metadata(&headers);
    assert_eq!(metadata.len(), 2);
    assert_eq!(metadata.get("x-team").unwrap().as_bytes(), "caf\u{e9}\t1".as_bytes());
    assert_eq!(metadata.get("!#$%&'*+-.^_`|~09").unwrap(), "v");
    assert_eq!(
        unparseable_headers(&headers),
        vec!["trace-BIN", "", "two words", "a:b", "caf\u{e9}", "del"]
    );
    assert!(skipped_headers(&config(OtelProtocol::HttpProtobuf, headers)).is_empty());
}

#[test]
fn tonic_metadata_key_length_is_bounded() {
    let mut headers = KvMap::new();
    headers.insert("k".repeat(65535), "v".to_string());
    headers.insert("k".repeat(65536), "v".to_string());
    assert_eq!(build_tonic_metadata(&headers).len(), 1);
    assert_eq!(unparseable_headers(&headers), vec!["k".repeat(65536)]);
}

#[test]
fn shutdown_goes_on_after_a_failure() {
    let failures = shutdown(
        || Err("tracer down".to_string()),
        || Ok(()),
        || Err("meter down".to_string()),
    );
    assert_eq!(
        failures,
        vec![
            ShutdownFailure { provider: Provider::Tracer, reason: "tracer down".to_string() },
            ShutdownFailure { provider: Provider::Meter, reason: "meter down".to_string() },
        ]
    );
    assert!(shutdown(|| Ok(()), || Ok(()), || Ok(())).is_empty());
}
