//! Histograms of durations.

use crate::telemetry::TelemetryError;
use prometheus::{Histogram, HistogramOpts, Registry};
use vstd::prelude::*;
use vstd::string::*;

verus! {

/// Whether a metric name may begin with `c`.
pub open spec fn begins_name(c: char) -> bool {
    'a' <= c <= 'z' || 'A' <= c <= 'Z' || c == '_' || c == ':'
}

/// Whether `name` is the name of a metric.
pub open spec fn is_metric_name(name: Seq<char>) -> bool {
    &&& name.len() > 0
    &&& begins_name(name[0])
    &&& forall|i: int|
        0 <= i < name.len() ==> begins_name(#[trigger] name[i]) || '0' <= name[i] <= '9'
}

/// Why there can be no histogram of this name and help, if there is a reason.
pub open spec fn opts_refusal(name: Seq<char>, help: Seq<char>) -> Option<Seq<char>> {
    if help.len() == 0 {
        Some("Error: empty help string"@)
    } else if !is_metric_name(name) {
        Some("Error: '"@ + name + "' is not a valid metric name"@)
    } else {
        None
    }
}

/// Why a histogram of this name and help cannot be built, if there is a
/// reason.
pub open spec fn histogram_refusal(name: Seq<char>, help: Seq<char>) -> Option<Seq<char>> {
    match opts_refusal(name, help) {
        Some(reason) => Some("build histogram "@ + name + ": "@ + reason),
        None => None,
    }
}

/// Why the histogram `name` could not be registered.
pub open spec fn register_failure(name: Seq<char>, reason: Seq<char>) -> Seq<char> {
    "register histogram "@ + name + ": "@ + reason
}

#[verifier::external_type_specification]
#[verifier::external_body]
pub struct ExHistogram(prometheus::Histogram);

/// The name and the help text of `histogram`.
pub uninterp spec fn histogram_opts(histogram: prometheus::Histogram) -> (Seq<char>, Seq<char>);

/// Whether `histogram` is registered, at some time, in the registry that
/// `registry` is a handle of.
pub uninterp spec fn gets_histogram(
    registry: prometheus::Registry,
    histogram: prometheus::Histogram,
) -> bool;

/// Whether the registry that `registry` is a handle of refuses, at some time, a
/// histogram with the name and help text `opts`, for the reason `reason`.
pub uninterp spec fn histogram_refused(
    registry: prometheus::Registry,
    opts: (Seq<char>, Seq<char>),
    reason: Seq<char>,
) -> bool;

/// `Histogram::with_opts` of prometheus with a name and a help text, and the
/// text of its error. It refuses an empty help text and a name that is none;
/// else the histogram has this name and this help text.
#[verifier::external_body]
fn build_histogram(name: &str, help: &str) -> (r: Result<Histogram, String>)
    ensures
        match r {
            Ok(histogram) => opts_refusal(name@, help@) is None && histogram_opts(histogram) == (
                name@,
                help@,
            ),
            Err(reason) => opts_refusal(name@, help@) == Some(reason@),
        },
{
    Histogram::with_opts(HistogramOpts::new(name, help)).map_err(|error| error.to_string())
}

/// `Registry::register` of prometheus with a histogram, and the text of its
/// error. Where it succeeds, the registry has the histogram; else the error is
/// the registry's refusal of one with this name and help text. Whether it
/// succeeds depends on what the registry holds by then, through whatever handle
/// it was registered.
#[verifier::external_body]
fn register_histogram(registry: &Registry, histogram: &Histogram) -> (r: Result<(), String>)
    ensures
        match r {
            Ok(_) => gets_histogram(*registry, *histogram),
            Err(reason) => histogram_refused(*registry, histogram_opts(*histogram), reason@),
        },
{
    registry.register(Box::new(histogram.clone())).map_err(|error| error.to_string())
}

/// A histogram of durations, in seconds.
pub struct DurationHistogram {
    histogram: Histogram,
}

/// What comes of building the histogram `name`.
pub fn build_result(name: &str, built: Result<Histogram, String>) -> (r: Result<
    Histogram,
    TelemetryError,
>)
    ensures
        match built {
            Ok(histogram) => r == Ok::<Histogram, TelemetryError>(histogram),
            Err(reason) => r matches Err(e) && e.0@ == "build histogram "@ + name@ + ": "@
                + reason@,
        },
{
    match built {
        Ok(histogram) => Ok(histogram),
        Err(reason) => {
            let mut message = "build histogram ".to_owned();
            message.append(name);
            message.append(": ");
            message.append(reason.as_str());
            Err(TelemetryError(message))
        },
    }
}

/// What comes of registering the histogram `name`.
pub fn register_result(name: &str, registered: Result<(), String>) -> (r: Result<
    (),
    TelemetryError,
>)
    ensures
        match registered {
            Ok(_) => r is Ok,
            Err(reason) => r matches Err(e) && e.0@ == register_failure(name@, reason@),
        },
{
    match registered {
        Ok(_) => Ok(()),
        Err(reason) => {
            let mut message = "register histogram ".to_owned();
            message.append(name);
            message.append(": ");
            message.append(reason.as_str());
            Err(TelemetryError(message))
        },
    }
}

impl DurationHistogram {
    /// A new histogram, registered into `registry` under `name`. A name that
    /// is none, an empty help text, and a name that is taken are errors.
    pub fn new(registry: &Registry, name: &str, help: &str) -> (r: Result<
        DurationHistogram,
        TelemetryError,
    >)
        ensures
            match histogram_refusal(name@, help@) {
                Some(message) => r matches Err(e) && e.0@ == message,
                None => match r {
                    Ok(h) => histogram_opts(h.spec_histogram()) == (name@, help@)
                        && gets_histogram(*registry, h.spec_histogram()),
                    Err(e) => exists|reason: Seq<char>|
                        e.0@ == #[trigger] register_failure(name@, reason) && histogram_refused(
                            *registry,
                            (name@, help@),
                            reason,
                        ),
                },
            },
    {
        let histogram = match build_result(name, build_histogram(name, help)) {
            Ok(histogram) => histogram,
            Err(error) => return Err(error),
        };
        match register_result(name, register_histogram(registry, &histogram)) {
            Ok(_) => Ok(DurationHistogram { histogram }),
            Err(error) => Err(error),
        }
    }

    /// The histogram.
    pub closed spec fn spec_histogram(&self) -> Histogram {
        self.histogram
    }

    /// The histogram, to observe durations with.
    pub fn histogram(&self) -> (r: &Histogram)
        ensures
            *r == self.spec_histogram(),
    {
        &self.histogram
    }
}

/// A histogram is refused exactly if its help text is empty or its name is no
/// metric name: one that begins with an ASCII letter, `_` or `:` and goes on
/// with these and digits. The text names the histogram and what is wrong.
pub proof fn law_refused_histograms(name: Seq<char>, help: Seq<char>)
    ensures
        ({
            let starts = |c: char| 'a' <= c <= 'z' || 'A' <= c <= 'Z' || c == '_' || c == ':';
            let named = name.len() > 0 && starts(name[0]) && forall|i: int|
                0 <= i < name.len() ==> starts(#[trigger] name[i]) || '0' <= name[i] <= '9';
            &&& histogram_refusal(name, help) is None <==> help.len() > 0 && named
            &&& help.len() == 0 ==> histogram_refusal(name, help) == Some(
                "build histogram "@ + name + ": "@ + "Error: empty help string"@,
            )
            &&& help.len() > 0 && !named ==> histogram_refusal(name, help) == Some(
                "build histogram "@ + name + ": "@ + ("Error: '"@ + name
                    + "' is not a valid metric name"@),
            )
        }),
{
    assert forall|c: char| #[trigger] begins_name(c) <==> 'a' <= c <= 'z' || 'A' <= c <= 'Z' || c
        == '_' || c == ':' by {}
}

/// A histogram that could not be registered is told with its name and the
/// reason.
pub proof fn law_unregistered_histograms(name: Seq<char>, reason: Seq<char>)
    ensures
        register_failure(name, reason) == "register histogram "@ + name + ": "@ + reason,
{
}

} // verus!
