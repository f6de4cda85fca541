//! The configuration of OTLP export.

use crate::kv::{distinct_keys, kv_list, pairs_map, parse_kv_list, KvMap};
use crate::text::{
    debug_quoted, debug_text, is_blank, is_white_space, law_numeral_spells_number,
    law_trimmed_blank, law_trimmed_cuts, law_trimmed_padding, numeral, numeral_text, numeral_value,
    str_eq, trimmed,
};
use vstd::prelude::*;
use vstd::string::*;

verus! {

/// The wire protocol of OTLP exports.
#[derive(Debug, Clone, Copy, PartialEq, Eq, Structural)]
pub enum OtelProtocol {
    /// OTLP over gRPC, the default.
    Grpc,
    /// OTLP over HTTP with protobuf bodies.
    HttpProtobuf,
}

/// The protocol that `value` selects.
pub open spec fn protocol_of(value: Option<Seq<char>>) -> OtelProtocol {
    match value {
        Some(s) => if trimmed(s) == "http/protobuf"@ {
            OtelProtocol::HttpProtobuf
        } else {
            OtelProtocol::Grpc
        },
        None => OtelProtocol::Grpc,
    }
}

/// What an optional string holds.
pub open spec fn text_of(value: Option<String>) -> Option<Seq<char>> {
    match value {
        Some(s) => Some(s@),
        None => None,
    }
}

impl OtelProtocol {
    /// Parses the value of `OTEL_EXPORTER_OTLP_PROTOCOL`. Anything but
    /// `http/protobuf`, white space around it aside, selects gRPC.
    pub fn parse(value: Option<&str>) -> (r: OtelProtocol)
        ensures
            r == protocol_of(
                match value {
                    Some(s) => Some(s@),
                    None => None,
                },
            ),
    {
        match value {
            Some(s) => if str_eq(s.trim(), "http/protobuf") {
                OtelProtocol::HttpProtobuf
            } else {
                OtelProtocol::Grpc
            },
            None => OtelProtocol::Grpc,
        }
    }

    /// The name of the protocol in messages.
    pub(crate) fn name(&self) -> (r: &'static str)
        ensures
            r@ == protocol_name(*self),
    {
        match self {
            OtelProtocol::Grpc => "grpc",
            OtelProtocol::HttpProtobuf => "http",
        }
    }
}

/// The name of `protocol` in messages.
pub open spec fn protocol_name(protocol: OtelProtocol) -> Seq<char> {
    match protocol {
        OtelProtocol::Grpc => "grpc"@,
        OtelProtocol::HttpProtobuf => "http"@,
    }
}

/// The values of the environment variables that configure OTLP export.
pub struct OtelEnv {
    /// `OTEL_EXPORTER_OTLP_ENDPOINT`.
    pub endpoint: Option<String>,
    /// `OTEL_EXPORTER_OTLP_PROTOCOL`.
    pub protocol: Option<String>,
    /// `OTEL_EXPORTER_OTLP_HEADERS`.
    pub headers: Option<String>,
    /// `OTEL_SERVICE_NAME`.
    pub service_name: Option<String>,
    /// `OTEL_RESOURCE_ATTRIBUTES`.
    pub resource_attributes: Option<String>,
}

/// Where OTLP exports go, and as what.
pub struct OtelConfig {
    /// The collector; `None` leaves the choice to the exporters.
    pub endpoint: Option<String>,
    /// The wire protocol.
    pub protocol: OtelProtocol,
    /// The headers of every request, such as authorization for the collector.
    pub headers: KvMap,
    /// The name of the exporting service.
    pub service_name: String,
    /// Further attributes of the exporting service.
    pub resource_attributes: Vec<(String, String)>,
}

/// What an [`OtelConfig`] holds.
pub struct OtelConfigView {
    pub endpoint: Option<Seq<char>>,
    pub protocol: OtelProtocol,
    pub headers: Map<Seq<char>, Seq<char>>,
    pub service_name: Seq<char>,
    pub resource_attributes: Seq<(Seq<char>, Seq<char>)>,
}

/// What `pairs` hold.
pub open spec fn pairs_view(pairs: Seq<(String, String)>) -> Seq<(Seq<char>, Seq<char>)> {
    pairs.map_values(|pair: (String, String)| (pair.0@, pair.1@))
}

impl View for OtelConfig {
    type V = OtelConfigView;

    open spec fn view(&self) -> OtelConfigView {
        OtelConfigView {
            endpoint: text_of(self.endpoint),
            protocol: self.protocol,
            headers: self.headers@,
            service_name: self.service_name@,
            resource_attributes: pairs_view(self.resource_attributes@),
        }
    }
}

/// `value`, unless it is blank.
pub open spec fn unless_blank(value: Option<Seq<char>>) -> Option<Seq<char>> {
    match value {
        Some(s) => if trimmed(s).len() == 0 {
            None
        } else {
            Some(s)
        },
        None => None,
    }
}

/// The value of an environment variable, where one that is set to white space
/// counts as unset.
pub fn non_empty_env(value: Option<String>) -> (r: Option<String>)
    ensures
        text_of(r) == unless_blank(text_of(value)),
{
    match value {
        Some(s) => if s.as_str().trim().is_empty() {
            None
        } else {
            Some(s)
        },
        None => None,
    }
}

/// Parses the list in an optional string.
fn parse_list(value: Option<String>) -> (r: KvMap)
    ensures
        r@ == kv_list(text_of(value)),
{
    match value {
        Some(s) => parse_kv_list(Some(s.as_str())),
        None => parse_kv_list(None),
    }
}

impl OtelConfig {
    /// The configuration that the environment gives.
    pub fn from_env(env: OtelEnv) -> (r: OtelConfig)
        ensures
            r@.endpoint == unless_blank(text_of(env.endpoint)),
            r@.protocol == protocol_of(text_of(env.protocol)),
            r@.headers == kv_list(unless_blank(text_of(env.headers))),
            r@.service_name == match unless_blank(text_of(env.service_name)) {
                Some(name) => name,
                None => "penguind"@,
            },
            distinct_keys(r.resource_attributes@),
            pairs_map(r.resource_attributes@) == kv_list(
                unless_blank(text_of(env.resource_attributes)),
            ),
    {
        let protocol = match env.protocol {
            Some(s) => OtelProtocol::parse(Some(s.as_str())),
            None => OtelProtocol::parse(None),
        };
        let service_name = match non_empty_env(env.service_name) {
            Some(name) => name,
            None => "penguind".to_owned(),
        };
        OtelConfig {
            endpoint: non_empty_env(env.endpoint),
            protocol,
            headers: parse_list(non_empty_env(env.headers)),
            service_name,
            resource_attributes: parse_list(
                non_empty_env(env.resource_attributes),
            ).into_entries(),
        }
    }
}

/// How an optional string is shown.
pub open spec fn option_shown(value: Option<Seq<char>>) -> Seq<char> {
    match value {
        Some(s) => "Some("@ + debug_text(s) + ")"@,
        None => "None"@,
    }
}

/// How a protocol is shown.
pub open spec fn protocol_shown(protocol: OtelProtocol) -> Seq<char> {
    match protocol {
        OtelProtocol::Grpc => "Grpc"@,
        OtelProtocol::HttpProtobuf => "HttpProtobuf"@,
    }
}

/// How the pairs of a list are shown, one behind the other.
pub open spec fn pairs_shown(pairs: Seq<(Seq<char>, Seq<char>)>) -> Seq<char>
    decreases pairs.len(),
{
    if pairs.len() == 0 {
        Seq::empty()
    } else {
        let (key, value) = pairs.last();
        let shown = "("@ + debug_text(key) + ", "@ + debug_text(value) + ")"@;
        if pairs.len() == 1 {
            shown
        } else {
            pairs_shown(pairs.drop_last()) + ", "@ + shown
        }
    }
}

impl OtelConfigView {
    /// How the configuration is shown: of the headers, only how many there
    /// are.
    pub open spec fn shown(self) -> Seq<char> {
        "OtelConfig { endpoint: "@ + option_shown(self.endpoint) + ", protocol: "@
            + protocol_shown(self.protocol) + ", headers: "@ + debug_text(
            "<"@ + numeral(self.headers.dom().len(), 10) + " redacted>"@,
        ) + ", service_name: "@ + debug_text(self.service_name) + ", resource_attributes: ["@
            + pairs_shown(self.resource_attributes) + "] }"@
    }
}

/// Shows the pairs of a list, one behind the other.
fn show_pairs(pairs: &Vec<(String, String)>) -> (r: String)
    ensures
        r@ == pairs_shown(pairs_view(pairs@)),
{
    let mut out = String::new();
    let mut i: usize = 0;
    assert(out@ =~= pairs_shown(pairs_view(pairs@).take(0)));
    while i < pairs.len()
        invariant
            i <= pairs@.len(),
            out@ == pairs_shown(pairs_view(pairs@).take(i as int)),
        decreases pairs@.len() - i,
    {
        let ghost before = out@;
        if i > 0 {
            out.append(", ");
        }
        out.append("(");
        out.append(debug_quoted(pairs[i].0.as_str()).as_str());
        out.append(", ");
        out.append(debug_quoted(pairs[i].1.as_str()).as_str());
        out.append(")");
        proof {
            let next = pairs_view(pairs@).take(i + 1);
            let pair = pairs@[i as int];
            let shown = "("@ + debug_text(pair.0@) + ", "@ + debug_text(pair.1@) + ")"@;
            assert(next.drop_last() =~= pairs_view(pairs@).take(i as int));
            assert(next.last() == (pair.0@, pair.1@));
            if i == 0 {
                assert(out@ =~= shown);
            } else {
                assert(out@ =~= before + ", "@ + shown);
            }
            assert(out@ == pairs_shown(next));
        }
        i += 1;
    }
    assert(pairs_view(pairs@).take(i as int) =~= pairs_view(pairs@));
    out
}

impl OtelConfig {
    /// The configuration as it may be logged: header values are left out.
    pub fn debug_text(&self) -> (r: String)
        ensures
            r@ == self@.shown(),
    {
        let mut redacted = "<".to_owned();
        redacted.append(numeral_text(self.headers.len() as u64, 10).as_str());
        redacted.append(" redacted>");
        let mut out = "OtelConfig { endpoint: ".to_owned();
        match &self.endpoint {
            Some(endpoint) => {
                let mut shown = "Some(".to_owned();
                shown.append(debug_quoted(endpoint.as_str()).as_str());
                shown.append(")");
                out.append(shown.as_str());
            },
            None => {
                out.append("None");
            },
        }
        out.append(", protocol: ");
        out.append(
            match self.protocol {
                OtelProtocol::Grpc => "Grpc",
                OtelProtocol::HttpProtobuf => "HttpProtobuf",
            },
        );
        out.append(", headers: ");
        out.append(debug_quoted(redacted.as_str()).as_str());
        out.append(", service_name: ");
        out.append(debug_quoted(self.service_name.as_str()).as_str());
        out.append(", resource_attributes: [");
        out.append(show_pairs(&self.resource_attributes).as_str());
        out.append("] }");
        out
    }
}

/// What is shown of a configuration does not depend on what its headers are,
/// only on how many there are.
pub proof fn law_headers_are_redacted(a: OtelConfigView, b: OtelConfigView)
    requires
        a.endpoint == b.endpoint,
        a.protocol == b.protocol,
        a.service_name == b.service_name,
        a.resource_attributes == b.resource_attributes,
        a.headers.dom().len() == b.headers.dom().len(),
    ensures
        a.shown() == b.shown(),
{
}

/// HTTP is selected by `http/protobuf`, with or without white space around it,
/// and by nothing else.
pub proof fn law_protocol_is_selected(value: Option<Seq<char>>)
    ensures
        protocol_of(value) == OtelProtocol::HttpProtobuf <==> exists|left: Seq<char>, right: Seq<char>|
            is_blank(left) && is_blank(right) && value == Some(
                #[trigger] (left + "http/protobuf"@ + right),
            ),
        value is None ==> protocol_of(value) == OtelProtocol::Grpc,
{
    reveal_strlit("http/protobuf");
    let wanted = "http/protobuf"@;
    if let Some(s) = value {
        if trimmed(s) == wanted {
            law_trimmed_cuts(s);
            let (left, right) = choose|left: Seq<char>, right: Seq<char>|
                is_blank(left) && is_blank(right) && s == #[trigger] (left + trimmed(s) + right);
            assert(value == Some(left + wanted + right));
        }
        assert forall|left: Seq<char>, right: Seq<char>|
            is_blank(left) && is_blank(right) && s == #[trigger] (left + wanted + right) implies trimmed(
            s,
        ) == wanted by {
            law_trimmed_padding(left, wanted, right);
        }
    }
}

/// A variable that is set counts, as it is, if and only if it holds a character
/// that is no white space.
pub proof fn law_blank_counts_as_unset(value: Option<Seq<char>>)
    ensures
        unless_blank(value) is Some <==> (value matches Some(s) && exists|i: int|
            0 <= i < s.len() && !is_white_space(#[trigger] s[i])),
        unless_blank(value) is Some ==> unless_blank(value) == value,
{
    if let Some(s) = value {
        law_trimmed_blank(s);
    }
}

/// An optional string holds its text.
pub proof fn law_text_of(value: Option<String>)
    ensures
        value matches Some(s) ==> text_of(value) == Some(s@),
        value is None ==> text_of(value) is None,
{
}

/// What is shown of a configuration: each of its fields in order, and of the
/// headers how many there are.
pub proof fn law_fields_are_shown(config: OtelConfigView)
    ensures
        config.shown() == "OtelConfig { endpoint: "@ + (match config.endpoint {
            Some(endpoint) => "Some("@ + debug_text(endpoint) + ")"@,
            None => "None"@,
        }) + ", protocol: "@ + (if config.protocol == OtelProtocol::Grpc {
            "Grpc"@
        } else {
            "HttpProtobuf"@
        }) + ", headers: "@ + debug_text(
            "<"@ + numeral(config.headers.dom().len(), 10) + " redacted>"@,
        ) + ", service_name: "@ + debug_text(config.service_name) + ", resource_attributes: ["@
            + pairs_shown(config.resource_attributes) + "] }"@,
        numeral_value(numeral(config.headers.dom().len(), 10), 10) == config.headers.dom().len(),
{
    law_numeral_spells_number(config.headers.dom().len(), 10);
}

/// Attributes are shown in order, each key with its value, a comma between two.
pub proof fn law_pairs_are_shown(
    a: Seq<(Seq<char>, Seq<char>)>,
    b: Seq<(Seq<char>, Seq<char>)>,
    key: Seq<char>,
    value: Seq<char>,
)
    ensures
        pairs_shown(Seq::empty()).len() == 0,
        pairs_shown(seq![(key, value)]) == "("@ + debug_text(key) + ", "@ + debug_text(value)
            + ")"@,
        a.len() > 0 && b.len() > 0 ==> pairs_shown(a + b) == pairs_shown(a) + ", "@ + pairs_shown(
            b,
        ),
    decreases b.len(),
{
    if a.len() > 0 && b.len() > 0 {
        assert((a + b).drop_last() =~= a + b.drop_last());
        if b.len() == 1 {
            assert(a + b.drop_last() =~= a);
        } else {
            law_pairs_are_shown(a, b.drop_last(), key, value);
        }
        assert(pairs_shown(a + b) =~= pairs_shown(a) + ", "@ + pairs_shown(b));
    }
}

/// A protocol has its own name in messages, and its own where it is shown.
pub proof fn law_protocol_names(protocol: OtelProtocol)
    ensures
        protocol_name(protocol) == "grpc"@ <==> protocol == OtelProtocol::Grpc,
        protocol_name(protocol) == "http"@ <==> protocol == OtelProtocol::HttpProtobuf,
        protocol_shown(protocol) == "Grpc"@ <==> protocol == OtelProtocol::Grpc,
        protocol_shown(protocol) == "HttpProtobuf"@ <==> protocol == OtelProtocol::HttpProtobuf,
{
    reveal_strlit("grpc");
    reveal_strlit("http");
    reveal_strlit("Grpc");
    reveal_strlit("HttpProtobuf");
    assert("grpc"@[0] == 'g' && "http"@[0] == 'h');
    assert("Grpc"@[0] == 'G' && "HttpProtobuf"@[0] == 'H');
}

/// A configuration is seen by each of its settings.
pub proof fn law_configuration_is_seen_whole(config: OtelConfig, i: int)
    ensures
        config.endpoint matches Some(s) ==> config@.endpoint == Some(s@),
        config.endpoint is None ==> config@.endpoint is None,
        config@.protocol == config.protocol,
        config@.headers == config.headers@,
        config@.service_name == config.service_name@,
        config@.resource_attributes.len() == config.resource_attributes@.len(),
        0 <= i < config.resource_attributes@.len() ==> config@.resource_attributes[i] == (
            config.resource_attributes@[i].0@,
            config.resource_attributes@[i].1@,
        ),
{
}

} // verus!
