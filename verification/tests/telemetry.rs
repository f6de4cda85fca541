use penguin::duration::{build_result, register_result, DurationHistogram};
use penguin::logging::{log_line, parse_level_filter, EventLevel, MessageVisitor};
use penguin::telemetry::{
    parse_level, process_result, LevelFilter, Telemetry, TelemetryError,
};
use prometheus::Counter;

#[test]
fn parse_level_accepts_the_known_levels() {
    let ok = ["debug", "info", "warn", "error", "dpanic", "panic", "fatal"];
    for level in ok {
        assert!(parse_level(level).is_ok(), "{level} should parse");
    }
}

#[test]
fn parse_level_rejects_unknown() {
    assert!(parse_level("invalid_level").is_err());
    assert!(parse_level("trace").is_err());
    assert!(parse_level("").is_err());
}

#[test]
fn parse_level_maps_each_level() {
    assert_eq!(parse_level("debug"), Ok(LevelFilter::DEBUG));
    assert_eq!(parse_level("info"), Ok(LevelFilter::INFO));
    assert_eq!(parse_level("warn"), Ok(LevelFilter::WARN));
    assert_eq!(parse_level("error"), Ok(LevelFilter::ERROR));
    assert_eq!(parse_level("dpanic"), Ok(LevelFilter::ERROR));
    assert_eq!(
        parse_level("No\n\"such\""),
        Err(TelemetryError("invalid log level: \"No\\n\\\"such\\\"\"".to_string()))
    );
    assert_eq!(LevelFilter::WARN.as_str(), "warn");
}

#[test]
fn parse_level_filter_maps_known_values_and_defaults_unknown_to_info() {
    assert_eq!(parse_level_filter("debug"), LevelFilter::DEBUG);
    assert_eq!(parse_level_filter("info"), LevelFilter::INFO);
    assert_eq!(parse_level_filter("warn"), LevelFilter::WARN);
    assert_eq!(parse_level_filter("error"), LevelFilter::ERROR);
    assert_eq!(parse_level_filter("fatal"), LevelFilter::ERROR);
    assert_eq!(parse_level_filter("nonsense"), LevelFilter::INFO);
    assert_eq!(parse_level_filter(""), LevelFilter::INFO);
}

#[test]
fn a_log_line_holds_the_rendered_message_and_level() {
    let mut visitor = MessageVisitor::new();
    visitor.record("message", "hello from the daemon".to_string());
    let line = log_line(EventLevel::Info, visitor);
    assert_eq!(line.message, "hello from the daemon");
    assert_eq!(line.level, "info");
}

#[test]
fn a_log_line_ignores_fields_other_than_the_message() {
    let mut visitor = MessageVisitor::new();
    visitor.record("message", "restart scheduled".to_string());
    visitor.record("module", "\"squawk\"".to_string());
    visitor.record("attempt", "3".to_string());
    let line = log_line(EventLevel::Warn, visitor);
    assert_eq!(line.message, "restart scheduled");
    assert_eq!(line.level, "warn");
}

#[test]
fn an_event_without_a_message_has_an_empty_one() {
    let line = log_line(EventLevel::Trace, MessageVisitor::new());
    assert_eq!((line.level.as_str(), line.message.as_str()), ("trace", ""));
    assert_eq!(EventLevel::Debug.as_str(), "debug");
    assert_eq!(EventLevel::Error.as_str(), "error");
}

#[test]
fn new_succeeds_for_valid_levels() {
    for level in ["debug", "info", "warn", "error", "fatal", "panic"] {
        let telemetry = Telemetry::new(level);
        assert!(telemetry.is_ok(), "New({level}) should succeed");
    }
}

#[test]
fn new_fails_for_an_invalid_level() {
    assert!(Telemetry::new("nonsense").is_err());
}

#[test]
fn module_registerer_registers_and_rejects_duplicates() {
    let telemetry = Telemetry::new("info").unwrap_or_else(|error| panic!("{}", error.0));
    let metrics = telemetry.module_registerer("squawk");
    let register = |counter: Counter| {
        metrics.registered(
            metrics.registry().register(Box::new(counter)).map_err(|error| error.to_string()),
        )
    };

    let first = Counter::new("t_requests_total", "test counter").unwrap();
    assert!(register(first).is_ok());

    let dup = Counter::new("t_requests_total", "test counter").unwrap();
    let err = register(dup).unwrap_err();
    assert!(err.0.contains("squawk"));
    assert_eq!(err.0, "module squawk: Duplicate metrics collector registration attempted");

    let shared = telemetry.registry().gather();
    assert!(shared.iter().any(|family| family.name() == "t_requests_total"));
}

#[test]
fn registry_gathers_process_metrics() {
    let telemetry = Telemetry::new("info").unwrap_or_else(|error| panic!("{}", error.0));
    let families = telemetry.registry().gather();
    assert!(!families.is_empty());

    let mut has_process = false;
    for family in &families {
        if family.name().starts_with("process_") {
            has_process = true;
        }
    }
    assert!(has_process, "expected process_* metrics from the collector");
}

#[test]
fn records_into_prometheus_and_reports_a_sample() {
    let registry = prometheus::Registry::new();
    let histogram = DurationHistogram::new(&registry, "t_op_duration_seconds", "test")
        .unwrap_or_else(|error| panic!("{}", error.0));

    histogram.histogram().observe(0.25);
    histogram.histogram().observe(1.5);

    let families = registry.gather();
    let family = families
        .iter()
        .find(|f| f.name() == "t_op_duration_seconds")
        .expect("histogram family present");
    let sample = &family.get_metric()[0].get_histogram();
    assert_eq!(sample.get_sample_count(), 2);
}

#[test]
fn duplicate_names_fail_registration_rather_than_silently_colliding() {
    let registry = prometheus::Registry::new();
    let first = DurationHistogram::new(&registry, "t_dup_seconds", "test");
    assert!(first.is_ok());
    let second = DurationHistogram::new(&registry, "t_dup_seconds", "test");
    let Err(error) = second else { panic!("registered twice") };
    assert_eq!(
        error.0,
        "register histogram t_dup_seconds: Duplicate metrics collector registration attempted"
    );
}

#[test]
fn a_histogram_needs_a_name_and_a_help_text() {
    let telemetry = Telemetry::new("info").unwrap_or_else(|error| panic!("{}", error.0));
    let refused = |name: &str, help: &str| match telemetry.duration_histogram(name, help) {
        Ok(_) => panic!("built"),
        Err(error) => error.0,
    };
    assert_eq!(refused("t_x", ""), "build histogram t_x: Error: empty help string");
    assert_eq!(
        refused("1t", "help"),
        "build histogram 1t: Error: '1t' is not a valid metric name"
    );
    assert_eq!(
        refused("", "help"),
        "build histogram : Error: '' is not a valid metric name"
    );
    assert!(telemetry.duration_histogram("_ns:t_9", "help").is_ok());
}

#[test]
fn outcomes_name_what_failed() {
    assert!(process_result(Ok(prometheus::Registry::new())).is_ok());
    let Err(error) = process_result(Err("taken".to_string())) else { panic!("registered") };
    assert_eq!(error.clone(), TelemetryError("register process collector: taken".to_string()));
    assert_eq!(
        register_result("h", Err("taken".to_string())),
        Err(TelemetryError("register histogram h: taken".to_string()))
    );
    let Err(error) = build_result("h", Err("no".to_string())) else { panic!("built") };
    assert_eq!(error.0, "build histogram h: no");
}

#[test]
fn a_registered_histogram_keeps_its_name_and_help_text() {
    let telemetry = Telemetry::new("warn").unwrap_or_else(|error| panic!("{}", error.0));
    let made = telemetry.duration_histogram("t_kept_seconds", "what it measures");
    assert!(made.is_ok());
    assert!(telemetry.duration_histogram("t_kept_seconds", "what it measures").is_err());
    let families = telemetry.registry().gather();
    let family =
        families.iter().find(|family| family.name() == "t_kept_seconds").expect("registered");
    assert_eq!(family.help(), "what it measures");
}
