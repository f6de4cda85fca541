//! Logging and metrics setup.

use crate::duration::{
    gets_histogram, histogram_opts, histogram_refusal, histogram_refused, register_failure,
    DurationHistogram,
};
use crate::text::{debug_quoted, debug_text, str_eq};
use prometheus::Registry;
use vstd::prelude::*;
use vstd::string::*;

verus! {

/// A telemetry setup failure, described in words.
#[derive(Debug, Clone, PartialEq, Eq)]
pub struct TelemetryError(pub String);

/// A failure to register a module's metrics, described in words.
#[derive(Debug, PartialEq, Eq)]
pub struct MetricsError(pub String);

/// The least severe level that is logged.
#[derive(Debug, Clone, Copy, PartialEq, Eq, Structural)]
pub enum LevelFilter {
    DEBUG,
    INFO,
    WARN,
    ERROR,
}

/// The filter that a log level stands for. `dpanic`, `panic` and `fatal` are
/// no less severe than `error`, and nothing is more severe.
pub open spec fn level_of(level: Seq<char>) -> Option<LevelFilter> {
    if level == "debug"@ {
        Some(LevelFilter::DEBUG)
    } else if level == "info"@ {
        Some(LevelFilter::INFO)
    } else if level == "warn"@ {
        Some(LevelFilter::WARN)
    } else if level == "error"@ || level == "dpanic"@ || level == "panic"@ || level == "fatal"@ {
        Some(LevelFilter::ERROR)
    } else {
        None
    }
}

/// The text of a level that is none.
pub open spec fn invalid_level(level: Seq<char>) -> Seq<char> {
    "invalid log level: "@ + debug_text(level)
}

/// Why the process collector could not be registered.
pub open spec fn process_failure(reason: Seq<char>) -> Seq<char> {
    "register process collector: "@ + reason
}

/// Why a collector of the module `module` could not be registered.
pub open spec fn module_failure(module: Seq<char>, reason: Seq<char>) -> Seq<char> {
    "module "@ + module + ": "@ + reason
}

/// The filter that `level` stands for, where it is a known level.
pub(crate) fn known_level(level: &str) -> (r: Option<LevelFilter>)
    ensures
        r == level_of(level@),
{
    if str_eq(level, "debug") {
        Some(LevelFilter::DEBUG)
    } else if str_eq(level, "info") {
        Some(LevelFilter::INFO)
    } else if str_eq(level, "warn") {
        Some(LevelFilter::WARN)
    } else if str_eq(level, "error") || str_eq(level, "dpanic") || str_eq(level, "panic")
        || str_eq(level, "fatal") {
        Some(LevelFilter::ERROR)
    } else {
        None
    }
}

/// The filter that `level` stands for. An unknown level is an error.
pub fn parse_level(level: &str) -> (r: Result<LevelFilter, TelemetryError>)
    ensures
        match level_of(level@) {
            Some(filter) => r == Ok::<LevelFilter, TelemetryError>(filter),
            None => r matches Err(e) && e.0@ == invalid_level(level@),
        },
{
    match known_level(level) {
        Some(filter) => Ok(filter),
        None => {
            let mut message = "invalid log level: ".to_owned();
            message.append(debug_quoted(level).as_str());
            Err(TelemetryError(message))
        },
    }
}

/// The name of a filter.
pub open spec fn filter_name(filter: LevelFilter) -> Seq<char> {
    match filter {
        LevelFilter::DEBUG => "debug"@,
        LevelFilter::INFO => "info"@,
        LevelFilter::WARN => "warn"@,
        LevelFilter::ERROR => "error"@,
    }
}

impl LevelFilter {
    /// The name of the filter.
    pub fn as_str(&self) -> (r: &'static str)
        ensures
            r@ == filter_name(*self),
    {
        match self {
            LevelFilter::DEBUG => "debug",
            LevelFilter::INFO => "info",
            LevelFilter::WARN => "warn",
            LevelFilter::ERROR => "error",
        }
    }
}

#[verifier::external_type_specification]
#[verifier::external_body]
pub struct ExRegistry(prometheus::Registry);

/// Whether a subscriber with JSON output up to the level `level` is offered to
/// the process, at some time, and is taken or not, as `taken` says.
pub uninterp spec fn subscriber_offered(level: Seq<char>, taken: bool) -> bool;

/// `SubscriberBuilder::try_init` of tracing-subscriber: offers JSON output up to
/// the level `level` as the process's subscriber. It is taken unless there is
/// one already, and that comes back.
#[verifier::external_body]
fn install_json_subscriber(level: &str) -> (r: bool)
    requires
        exists|filter: LevelFilter| level@ == #[trigger] filter_name(filter),
    ensures
        subscriber_offered(level@, r),
{
    let max = level.parse::<tracing::level_filters::LevelFilter>().unwrap();
    tracing_subscriber::fmt().json().with_max_level(max).try_init().is_ok()
}

/// `Registry::clone` of prometheus: another handle of the same registry.
#[verifier::external_body]
fn share_registry(registry: &Registry) -> (r: Registry)
    ensures
        r == *registry,
{
    registry.clone()
}

/// Whether the process collector is registered, at some time, in the registry
/// that `registry` is a handle of.
pub uninterp spec fn gets_process_collector(registry: prometheus::Registry) -> bool;

/// `Registry::register` of prometheus with the process collector, on a
/// registry that `Registry::new` just made. It succeeds, since a new registry
/// holds nothing that the collector's seven names could clash with, and the
/// registry then has the collector.
#[verifier::external_body]
fn registry_with_process() -> (r: Result<Registry, String>)
    ensures
        r is Ok,
        r matches Ok(registry) ==> gets_process_collector(registry),
{
    let registry = Registry::new();
    let process = prometheus::process_collector::ProcessCollector::for_self();
    registry.register(Box::new(process)).map_err(|error| error.to_string())?;
    Ok(registry)
}

/// Installs the JSON subscriber at `filter`, and returns whether it was taken.
fn install_subscriber(filter: LevelFilter) -> (r: bool)
    ensures
        subscriber_offered(filter_name(filter), r),
{
    install_json_subscriber(filter.as_str())
}

/// What comes of registering the process collector.
pub fn process_result(registered: Result<Registry, String>) -> (r: Result<
    Registry,
    TelemetryError,
>)
    ensures
        match registered {
            Ok(registry) => r == Ok::<Registry, TelemetryError>(registry),
            Err(reason) => r matches Err(e) && e.0@ == process_failure(reason@),
        },
{
    match registered {
        Ok(registry) => Ok(registry),
        Err(reason) => {
            let mut message = "register process collector: ".to_owned();
            message.append(reason.as_str());
            Err(TelemetryError(message))
        },
    }
}

/// Makes a registry and registers the process collector in it.
fn register_process_collector() -> (r: Result<Registry, TelemetryError>)
    ensures
        r matches Ok(registry) && gets_process_collector(registry),
{
    process_result(registry_with_process())
}

/// The metrics registry of the daemon.
pub struct Telemetry {
    registry: Registry,
}

impl Telemetry {
    /// Sets telemetry up at the log level `level`: a JSON subscriber, unless
    /// there is one already, and a registry with the process collector. An
    /// unknown level is an error.
    pub fn new(level: &str) -> (r: Result<Telemetry, TelemetryError>)
        ensures
            match level_of(level@) {
                Some(filter) => {
                    &&& exists|taken: bool| #[trigger]
                        subscriber_offered(filter_name(filter), taken)
                    &&& r matches Ok(telemetry) && gets_process_collector(
                        telemetry.spec_registry(),
                    )
                },
                None => r matches Err(e) && e.0@ == invalid_level(level@),
            },
    {
        let filter = match parse_level(level) {
            Ok(filter) => filter,
            Err(error) => return Err(error),
        };
        let _taken = install_subscriber(filter);
        match register_process_collector() {
            Ok(registry) => Ok(Telemetry { registry }),
            Err(error) => Err(error),
        }
    }

    /// The registry.
    pub closed spec fn spec_registry(&self) -> Registry {
        self.registry
    }

    /// The registry, to gather from.
    pub fn registry(&self) -> (r: &Registry)
        ensures
            *r == self.spec_registry(),
    {
        &self.registry
    }

    /// A handle that registers collectors for the module `name`.
    pub fn module_registerer(&self, name: &str) -> (r: ModuleMetrics)
        ensures
            r@ == name@,
            r.spec_registry() == self.spec_registry(),
    {
        ModuleMetrics { module: name.to_owned(), registry: share_registry(&self.registry) }
    }

    /// A new histogram of durations, registered under `name`.
    pub fn duration_histogram(&self, name: &str, help: &str) -> (r: Result<
        DurationHistogram,
        TelemetryError,
    >)
        ensures
            match histogram_refusal(name@, help@) {
                Some(message) => r matches Err(e) && e.0@ == message,
                None => match r {
                    Ok(h) => histogram_opts(h.spec_histogram()) == (name@, help@)
                        && gets_histogram(self.spec_registry(), h.spec_histogram()),
                    Err(e) => exists|reason: Seq<char>|
                        e.0@ == #[trigger] register_failure(name@, reason) && histogram_refused(
                            self.spec_registry(),
                            (name@, help@),
                            reason,
                        ),
                },
            },
    {
        DurationHistogram::new(&self.registry, name, help)
    }
}

/// A metrics handle of one module.
pub struct ModuleMetrics {
    module: String,
    registry: Registry,
}

impl View for ModuleMetrics {
    type V = Seq<char>;

    closed spec fn view(&self) -> Seq<char> {
        self.module@
    }
}

impl ModuleMetrics {
    /// The registry that the module's collectors go to.
    pub closed spec fn spec_registry(&self) -> Registry {
        self.registry
    }

    /// The registry that the module's collectors go to.
    pub fn registry(&self) -> (r: &Registry)
        ensures
            *r == self.spec_registry(),
    {
        &self.registry
    }

    /// What comes of registering a collector of the module: a failure names
    /// the module.
    pub fn registered(&self, outcome: Result<(), String>) -> (r: Result<(), MetricsError>)
        ensures
            match outcome {
                Ok(_) => r is Ok,
                Err(reason) => r matches Err(e) && e.0@ == module_failure(self@, reason@),
            },
    {
        match outcome {
            Ok(_) => Ok(()),
            Err(reason) => {
                let mut message = "module ".to_owned();
                message.append(self.module.as_str());
                message.append(": ");
                message.append(reason.as_str());
                Err(MetricsError(message))
            },
        }
    }
}

/// The levels are `debug`, `info`, `warn` and `error`, besides `dpanic`, `panic`
/// and `fatal`, which count as `error`. Nothing else is a level.
pub proof fn law_levels(level: Seq<char>)
    ensures
        level_of(level) == Some(LevelFilter::DEBUG) <==> level == "debug"@,
        level_of(level) == Some(LevelFilter::INFO) <==> level == "info"@,
        level_of(level) == Some(LevelFilter::WARN) <==> level == "warn"@,
        level_of(level) == Some(LevelFilter::ERROR) <==> level == "error"@ || level == "dpanic"@
            || level == "panic"@ || level == "fatal"@,
        level_of(level) is None <==> level != "debug"@ && level != "info"@ && level != "warn"@
            && level != "error"@ && level != "dpanic"@ && level != "panic"@ && level != "fatal"@,
{
    reveal_strlit("debug");
    reveal_strlit("info");
    reveal_strlit("warn");
    reveal_strlit("error");
    reveal_strlit("dpanic");
    reveal_strlit("panic");
    reveal_strlit("fatal");
    assert("debug"@[0] == 'd' && "debug"@.len() == 5);
    assert("info"@[0] == 'i');
    assert("warn"@[0] == 'w');
    assert("error"@[0] == 'e');
    assert("dpanic"@.len() == 6);
    assert("panic"@[0] == 'p');
    assert("fatal"@[0] == 'f');
}

/// A filter is what its name stands for.
pub proof fn law_filter_names(filter: LevelFilter)
    ensures
        level_of(filter_name(filter)) == Some(filter),
{
    law_levels("debug"@);
    law_levels("info"@);
    law_levels("warn"@);
    law_levels("error"@);
}

/// What failed is told with the reason: an unknown level as it was given, the
/// process collector, or a module's collector with the module.
pub proof fn law_failure_texts(level: Seq<char>, module: Seq<char>, reason: Seq<char>)
    ensures
        invalid_level(level) == "invalid log level: "@ + debug_text(level),
        process_failure(reason) == "register process collector: "@ + reason,
        module_failure(module, reason) == "module "@ + module + ": "@ + reason,
{
}

} // verus!
