//! What the daemon keeps of its own log events.

use crate::telemetry::{known_level, level_of, LevelFilter};
use crate::text::str_eq;
use vstd::prelude::*;
use vstd::string::*;

verus! {

/// The filter for the daemon's log level: an unknown one counts as `info`.
pub fn parse_level_filter(level: &str) -> (r: LevelFilter)
    ensures
        r == match level_of(level@) {
            Some(filter) => filter,
            None => LevelFilter::INFO,
        },
{
    match known_level(level) {
        Some(filter) => filter,
        None => LevelFilter::INFO,
    }
}

/// The level of an event.
#[derive(Debug, Clone, Copy, PartialEq, Eq, Structural)]
pub enum EventLevel {
    Trace,
    Debug,
    Info,
    Warn,
    Error,
}

/// The lowercase name of a level.
pub open spec fn level_name(level: EventLevel) -> Seq<char> {
    match level {
        EventLevel::Trace => "trace"@,
        EventLevel::Debug => "debug"@,
        EventLevel::Info => "info"@,
        EventLevel::Warn => "warn"@,
        EventLevel::Error => "error"@,
    }
}

impl EventLevel {
    /// The lowercase name of the level.
    pub fn as_str(&self) -> (r: &'static str)
        ensures
            r@ == level_name(*self),
    {
        match self {
            EventLevel::Trace => "trace",
            EventLevel::Debug => "debug",
            EventLevel::Info => "info",
            EventLevel::Warn => "warn",
            EventLevel::Error => "error",
        }
    }
}

/// Collects the message out of an event's fields.
pub struct MessageVisitor {
    message: String,
}

impl View for MessageVisitor {
    type V = Seq<char>;

    closed spec fn view(&self) -> Seq<char> {
        self.message@
    }
}

/// The message of an event with these fields, names and rendered values: that
/// of the last field named `message`.
pub open spec fn message_of(fields: Seq<(Seq<char>, Seq<char>)>) -> Seq<char>
    decreases fields.len(),
{
    if fields.len() == 0 {
        Seq::empty()
    } else if fields.last().0 == "message"@ {
        fields.last().1
    } else {
        message_of(fields.drop_last())
    }
}

impl MessageVisitor {
    /// Before the first field.
    pub fn new() -> (r: MessageVisitor)
        ensures
            r@ == message_of(Seq::empty()),
    {
        MessageVisitor { message: String::new() }
    }

    /// Takes note of a field and its rendered value: only the one named
    /// `message` counts.
    pub fn record(&mut self, field: &str, rendered: String)
        ensures
            final(self)@ == if field@ == "message"@ {
                rendered@
            } else {
                old(self)@
            },
    {
        if str_eq(field, "message") {
            self.message = rendered;
        }
    }
}

/// What is kept of an event.
#[derive(Debug, PartialEq, Eq)]
pub struct LogLine {
    pub level: String,
    pub message: String,
}

/// What is kept of an event of the level `level` whose fields `visitor` saw.
pub fn log_line(level: EventLevel, visitor: MessageVisitor) -> (r: LogLine)
    ensures
        r.level@ == level_name(level),
        r.message@ == visitor@,
{
    LogLine { level: level.as_str().to_owned(), message: visitor.message }
}

/// A visitor that has seen the fields of an event holds its message: recording
/// one more field keeps that so.
pub proof fn law_visitor_holds_message(
    fields: Seq<(Seq<char>, Seq<char>)>,
    field: Seq<char>,
    rendered: Seq<char>,
)
    ensures
        message_of(fields.push((field, rendered))) == if field == "message"@ {
            rendered
        } else {
            message_of(fields)
        },
{
    assert(fields.push((field, rendered)).drop_last() =~= fields);
}

/// The message of an event is that of its last field named `message`, and empty
/// without one.
pub proof fn law_last_message_counts(fields: Seq<(Seq<char>, Seq<char>)>, i: int)
    ensures
        0 <= i < fields.len() && fields[i].0 == "message"@ && (forall|j: int|
            i < j < fields.len() ==> (#[trigger] fields[j]).0 != "message"@) ==> message_of(fields)
            == fields[i].1,
        (forall|j: int| 0 <= j < fields.len() ==> (#[trigger] fields[j]).0 != "message"@)
            ==> message_of(fields).len() == 0,
    decreases fields.len(),
{
    if fields.len() > 0 {
        let front = fields.drop_last();
        law_last_message_counts(front, i);
        assert(fields.last() == fields[fields.len() - 1]);
        assert forall|j: int| 0 <= j < front.len() implies #[trigger] front[j] == fields[j] by {}
        if 0 <= i < fields.len() - 1 {
            assert(front[i] == fields[i]);
        }
    }
}

/// Each level has its own name.
pub proof fn law_event_level_names(level: EventLevel)
    ensures
        level_name(level) == "trace"@ <==> level == EventLevel::Trace,
        level_name(level) == "debug"@ <==> level == EventLevel::Debug,
        level_name(level) == "info"@ <==> level == EventLevel::Info,
        level_name(level) == "warn"@ <==> level == EventLevel::Warn,
        level_name(level) == "error"@ <==> level == EventLevel::Error,
{
    reveal_strlit("trace");
    reveal_strlit("debug");
    reveal_strlit("info");
    reveal_strlit("warn");
    reveal_strlit("error");
    assert("trace"@[0] == 't' && "debug"@[0] == 'd' && "info"@[0] == 'i' && "warn"@[0] == 'w'
        && "error"@[0] == 'e');
}

} // verus!
