//! The command-line client: what it does next, for each answer that it gets.
//!
//! [`begin`] and [`step`] say what is to be printed, called and read. Their
//! caller does it and reports back what came of the last thing to do.

use crate::text::{debug_quoted, debug_text, str_eq};
use vstd::prelude::*;
use vstd::string::*;

verus! {

/// How long dialing the daemon may take, in milliseconds.
pub const DIAL_TIMEOUT_MS: u64 = 3000;

/// How long listing the module commands may take, in milliseconds.
pub const DISCOVERY_TIMEOUT_MS: u64 = 300;

/// How long asking for the daemon's version may take, in milliseconds.
pub const VERSION_TIMEOUT_MS: u64 = 1000;

/// How long most calls may take, in milliseconds.
pub const DEFAULT_RPC_TIMEOUT_MS: u64 = 5000;

/// How long opening a stream may take, in milliseconds.
pub const STREAM_ESTABLISH_TIMEOUT_MS: u64 = 30000;

/// How long applying an update may take, in milliseconds.
pub const APPLY_UPDATE_TIMEOUT_MS: u64 = 60000;

/// The calls that the client makes to the daemon.
#[derive(Debug, Clone, Copy, PartialEq, Eq, Structural)]
pub enum Rpc {
    ListCommands,
    Version,
    ListModules,
    LoadModule,
    UnloadModule,
    GetStatus,
    TailLogs,
    CheckUpdate,
    ApplyUpdate,
    Dispatch,
}

/// How long a call may take, in milliseconds. For the calls that answer with a
/// stream it is how long opening the stream may take.
pub open spec fn rpc_timeout_ms(rpc: Rpc) -> u64 {
    match rpc {
        Rpc::ListCommands => DISCOVERY_TIMEOUT_MS,
        Rpc::Version => VERSION_TIMEOUT_MS,
        Rpc::TailLogs | Rpc::Dispatch => STREAM_ESTABLISH_TIMEOUT_MS,
        Rpc::ApplyUpdate => APPLY_UPDATE_TIMEOUT_MS,
        _ => DEFAULT_RPC_TIMEOUT_MS,
    }
}

impl Rpc {
    /// How long the call may take, in milliseconds.
    pub fn timeout_ms(&self) -> (r: u64)
        ensures
            r == rpc_timeout_ms(*self),
    {
        match self {
            Rpc::ListCommands => DISCOVERY_TIMEOUT_MS,
            Rpc::Version => VERSION_TIMEOUT_MS,
            Rpc::TailLogs | Rpc::Dispatch => STREAM_ESTABLISH_TIMEOUT_MS,
            Rpc::ApplyUpdate => APPLY_UPDATE_TIMEOUT_MS,
            _ => DEFAULT_RPC_TIMEOUT_MS,
        }
    }
}

/// A subcommand and what its arguments say.
#[derive(Debug, Clone, Copy, PartialEq, Eq, Structural)]
pub enum Verb {
    Version,
    Modules { json: bool },
    Load,
    Unload,
    Status { json: bool },
    Logs { lines_valid: bool },
    Update,
    /// A command of a module: whether the arguments name one, and whether they
    /// hold positional arguments for it.
    Module { resolved: bool, has_args: bool },
}

/// The subcommands by name.
#[derive(Debug, Clone, Copy, PartialEq, Eq, Structural)]
pub enum VerbName {
    Version,
    Modules,
    Load,
    Unload,
    Status,
    Logs,
    Update,
    Module,
}

/// What the arguments parse to.
#[derive(Debug, Clone, Copy, PartialEq, Eq, Structural)]
pub enum Parsed {
    /// They do not parse, or ask for help.
    Rejected,
    /// They name no subcommand.
    NoCommand,
    Command(Verb),
}

/// What is to be done about an update.
#[derive(Debug, Clone, Copy, PartialEq, Eq, Structural)]
pub enum UpdateChoice {
    NoUpdateAvailable,
    Confirm,
    Apply,
}

/// The status codes of failed calls that are told apart.
#[derive(Debug, Clone, Copy, PartialEq, Eq, Structural)]
pub enum StatusCode {
    Unimplemented,
    Other,
}

/// What came of the last thing to do.
#[derive(Debug, Clone, Copy, PartialEq, Eq, Structural)]
pub enum Event {
    /// Dialing was tried: whether there is a connection.
    Dialed(bool),
    /// The arguments were parsed.
    Parsed(Parsed),
    /// The call was answered, or its stream opened.
    Answered,
    /// The update check was answered, and this is to be done about it.
    Checked(UpdateChoice),
    /// The update call was answered: whether the update was applied.
    Applied(bool),
    /// The call or its stream failed.
    Failed(StatusCode),
    /// The stream gave a message.
    Message,
    /// The stream ended; this is the exit code that its messages add up to.
    Ended(i32),
    /// Standard input was read, as far as it is not a terminal.
    StdinRead,
    /// The user was asked: whether they agreed.
    Confirmed(bool),
}

/// What goes to standard output.
#[derive(Debug, Clone, Copy, PartialEq, Eq, Structural)]
pub enum Output {
    /// The client's version alone.
    BareVersion,
    Help,
    LocalVersion,
    DaemonVersion,
    ModulesJson,
    ModulesTable,
    LoadSuccess,
    UnloadSuccess,
    StatusJson,
    StatusHeader,
    StatusTable,
    TailLogsNotImplemented,
    LogLine,
    UpdateCheck,
    NoUpdatesAvailable,
    UpdateApplied,
    UpdateFailed,
    Chunk,
}

/// What goes to standard error.
#[derive(Debug, Clone, Copy, PartialEq, Eq, Structural)]
pub enum Complaint {
    DiscoveryFailed,
    DaemonUnreachable,
    RpcError,
    LoadError,
    InvalidLines,
    NoCommandGiven,
}

/// What is to be done.
#[derive(Debug, Clone, Copy, PartialEq, Eq, Structural)]
pub enum Action {
    Print(Output),
    Complain(Complaint),
    /// Add the module commands to the command tree.
    GraftModules,
    Dial,
    ParseArgs,
    Call(Rpc),
    /// Wait for the next message of the open stream.
    NextMessage,
    ReadStdin,
    Confirm,
    /// Exit with this code.
    Exit(u8),
    /// Leave the message and the exit code to the argument parser.
    ExitAsParsed,
}

/// How far a run of the client has come.
#[derive(Debug, Clone, Copy, PartialEq, Eq, Structural)]
pub enum State {
    Dialing,
    Discovering,
    Parsing { connected: bool },
    AwaitingVersion,
    AwaitingModules { json: bool },
    AwaitingLoad,
    AwaitingUnload,
    AwaitingStatus { json: bool },
    OpeningLogs,
    ReadingLogs,
    CheckingUpdate,
    Confirming,
    ApplyingUpdate,
    ReadingStdin { connected: bool },
    OpeningDispatch,
    ReadingDispatch,
    Finished,
}

/// Whether the arguments are exactly `--version` or `-V`.
pub open spec fn asks_version(args: Seq<String>) -> bool {
    args.len() == 1 && (args[0]@ == "--version"@ || args[0]@ == "-V"@)
}

/// `code` as a process can exit with it.
pub open spec fn clamped(code: i32) -> u8 {
    if code < 0 {
        0
    } else if code > 255 {
        255
    } else {
        code as u8
    }
}

/// The subcommand of this name; any other name is a module's.
pub open spec fn verb_named(name: Seq<char>) -> VerbName {
    if name == "version"@ {
        VerbName::Version
    } else if name == "modules"@ {
        VerbName::Modules
    } else if name == "load"@ {
        VerbName::Load
    } else if name == "unload"@ {
        VerbName::Unload
    } else if name == "status"@ {
        VerbName::Status
    } else if name == "logs"@ {
        VerbName::Logs
    } else if name == "update"@ {
        VerbName::Update
    } else {
        VerbName::Module
    }
}

/// Whether `args`, the program's name aside, are exactly `--version` or `-V`.
pub fn is_version_flag(args: &[String]) -> (r: bool)
    ensures
        r == asks_version(args@),
{
    args.len() == 1 && (str_eq(args[0].as_str(), "--version") || str_eq(args[0].as_str(), "-V"))
}

/// `code`, clamped to what a process can exit with.
pub fn exit_code_from(code: i32) -> (r: u8)
    ensures
        0 <= code <= 255 ==> r as int == code as int,
        code < 0 ==> r == 0,
        code > 255 ==> r == 255,
        r == clamped(code),
{
    if code < 0 {
        0
    } else if code > 255 {
        255
    } else {
        code as u8
    }
}

/// The subcommand of this name; any other name is a module's.
pub fn verb_for(name: &str) -> (r: VerbName)
    ensures
        r == verb_named(name@),
{
    if str_eq(name, "version") {
        VerbName::Version
    } else if str_eq(name, "modules") {
        VerbName::Modules
    } else if str_eq(name, "load") {
        VerbName::Load
    } else if str_eq(name, "unload") {
        VerbName::Unload
    } else if str_eq(name, "status") {
        VerbName::Status
    } else if str_eq(name, "logs") {
        VerbName::Logs
    } else if str_eq(name, "update") {
        VerbName::Update
    } else {
        VerbName::Module
    }
}

/// A state, and what is to be done on entering it.
pub type Reaction = (State, Seq<Action>);

/// Complain, and exit with a failure.
pub open spec fn give_up(complaint: Complaint) -> Reaction {
    (State::Finished, seq![Action::Complain(complaint), Action::Exit(1)])
}

/// Print, and exit with success.
pub open spec fn succeed(output: Output) -> Reaction {
    (State::Finished, seq![Action::Print(output), Action::Exit(0)])
}

/// Make a call and wait for its answer in the state `state`, if there is a
/// connection.
pub open spec fn call(connected: bool, rpc: Rpc, state: State) -> Reaction {
    if connected {
        (state, seq![Action::Call(rpc)])
    } else {
        give_up(Complaint::DaemonUnreachable)
    }
}

/// How a run begins, where `args` are all arguments, the program's name first.
pub open spec fn beginning(args: Seq<String>) -> Reaction {
    if asks_version(args.skip(1)) {
        succeed(Output::BareVersion)
    } else {
        (State::Dialing, seq![Action::Dial])
    }
}

/// What is to be done for a subcommand.
pub open spec fn verb_reaction(verb: Verb, connected: bool) -> Reaction {
    match verb {
        Verb::Version => {
            let (state, actions) = call(connected, Rpc::Version, State::AwaitingVersion);
            (state, seq![Action::Print(Output::LocalVersion)] + actions)
        },
        Verb::Modules { json } => call(connected, Rpc::ListModules, State::AwaitingModules { json }),
        Verb::Load => call(connected, Rpc::LoadModule, State::AwaitingLoad),
        Verb::Unload => call(connected, Rpc::UnloadModule, State::AwaitingUnload),
        Verb::Status { json } => call(connected, Rpc::GetStatus, State::AwaitingStatus { json }),
        Verb::Logs { lines_valid } => if lines_valid {
            call(connected, Rpc::TailLogs, State::OpeningLogs)
        } else {
            give_up(Complaint::InvalidLines)
        },
        Verb::Update => call(connected, Rpc::CheckUpdate, State::CheckingUpdate),
        Verb::Module { resolved, has_args } => if !resolved {
            give_up(Complaint::NoCommandGiven)
        } else if has_args {
            call(connected, Rpc::Dispatch, State::OpeningDispatch)
        } else {
            (State::ReadingStdin { connected }, seq![Action::ReadStdin])
        },
    }
}

/// What is to be done when the last thing to do in `state` came out as `event`
/// says. Nothing, where it cannot come out so.
pub open spec fn reaction(state: State, event: Event) -> Reaction {
    match (state, event) {
        (State::Dialing, Event::Dialed(true)) => call(true, Rpc::ListCommands, State::Discovering),
        (State::Dialing, Event::Dialed(false)) => (
            State::Parsing { connected: false },
            seq![Action::ParseArgs],
        ),
        (State::Discovering, Event::Answered) => (
            State::Parsing { connected: true },
            seq![Action::GraftModules, Action::ParseArgs],
        ),
        (State::Discovering, Event::Failed(_)) => (
            State::Parsing { connected: true },
            seq![Action::Complain(Complaint::DiscoveryFailed), Action::ParseArgs],
        ),
        (State::Parsing { .. }, Event::Parsed(Parsed::Rejected)) => (
            State::Finished,
            seq![Action::ExitAsParsed],
        ),
        (State::Parsing { .. }, Event::Parsed(Parsed::NoCommand)) => succeed(Output::Help),
        (State::Parsing { connected }, Event::Parsed(Parsed::Command(verb))) => verb_reaction(
            verb,
            connected,
        ),
        (State::AwaitingVersion, Event::Answered) => succeed(Output::DaemonVersion),
        (State::AwaitingModules { json }, Event::Answered) => succeed(
            if json {
                Output::ModulesJson
            } else {
                Output::ModulesTable
            },
        ),
        (State::AwaitingLoad, Event::Answered) => succeed(Output::LoadSuccess),
        (State::AwaitingLoad, Event::Failed(_)) => give_up(Complaint::LoadError),
        (State::AwaitingUnload, Event::Answered) => succeed(Output::UnloadSuccess),
        (State::AwaitingStatus { json }, Event::Answered) => if json {
            succeed(Output::StatusJson)
        } else {
            (
                State::Finished,
                seq![
                    Action::Print(Output::StatusHeader),
                    Action::Print(Output::StatusTable),
                    Action::Exit(0),
                ],
            )
        },
        (State::OpeningLogs, Event::Answered) => (State::ReadingLogs, seq![Action::NextMessage]),
        (State::OpeningLogs, Event::Failed(StatusCode::Unimplemented)) => succeed(
            Output::TailLogsNotImplemented,
        ),
        (State::ReadingLogs, Event::Message) => (
            State::ReadingLogs,
            seq![Action::Print(Output::LogLine), Action::NextMessage],
        ),
        (State::ReadingLogs, Event::Ended(_)) => (State::Finished, seq![Action::Exit(0)]),
        (State::CheckingUpdate, Event::Checked(choice)) => match choice {
            UpdateChoice::NoUpdateAvailable => (
                State::Finished,
                seq![
                    Action::Print(Output::UpdateCheck),
                    Action::Print(Output::NoUpdatesAvailable),
                    Action::Exit(0),
                ],
            ),
            UpdateChoice::Confirm => (
                State::Confirming,
                seq![Action::Print(Output::UpdateCheck), Action::Confirm],
            ),
            UpdateChoice::Apply => (
                State::ApplyingUpdate,
                seq![Action::Print(Output::UpdateCheck), Action::Call(Rpc::ApplyUpdate)],
            ),
        },
        (State::Confirming, Event::Confirmed(true)) => call(
            true,
            Rpc::ApplyUpdate,
            State::ApplyingUpdate,
        ),
        (State::Confirming, Event::Confirmed(false)) => (State::Finished, seq![Action::Exit(0)]),
        (State::ApplyingUpdate, Event::Applied(applied)) => succeed(
            if applied {
                Output::UpdateApplied
            } else {
                Output::UpdateFailed
            },
        ),
        (State::ReadingStdin { connected }, Event::StdinRead) => call(
            connected,
            Rpc::Dispatch,
            State::OpeningDispatch,
        ),
        (State::OpeningDispatch, Event::Answered) => (
            State::ReadingDispatch,
            seq![Action::NextMessage],
        ),
        (State::ReadingDispatch, Event::Message) => (
            State::ReadingDispatch,
            seq![Action::Print(Output::Chunk), Action::NextMessage],
        ),
        (State::ReadingDispatch, Event::Ended(code)) => (
            State::Finished,
            seq![Action::Exit(clamped(code))],
        ),
        (_, Event::Failed(_)) => if awaits_call(state) {
            give_up(Complaint::RpcError)
        } else {
            (state, seq![])
        },
        _ => (state, seq![]),
    }
}

/// Whether a call or its stream is under way in `state`.
pub open spec fn awaits_call(state: State) -> bool {
    match state {
        State::Discovering => true,
        State::AwaitingVersion => true,
        State::AwaitingModules { .. } => true,
        State::AwaitingLoad => true,
        State::AwaitingUnload => true,
        State::AwaitingStatus { .. } => true,
        State::OpeningLogs => true,
        State::ReadingLogs => true,
        State::CheckingUpdate => true,
        State::ApplyingUpdate => true,
        State::OpeningDispatch => true,
        State::ReadingDispatch => true,
        _ => false,
    }
}

fn one(a: Action) -> (r: Vec<Action>)
    ensures
        r@ == seq![a],
{
    let mut out: Vec<Action> = Vec::new();
    out.push(a);
    assert(out@ =~= seq![a]);
    out
}

fn two(a: Action, b: Action) -> (r: Vec<Action>)
    ensures
        r@ == seq![a, b],
{
    let mut out: Vec<Action> = Vec::new();
    out.push(a);
    out.push(b);
    assert(out@ =~= seq![a, b]);
    out
}

fn three(a: Action, b: Action, c: Action) -> (r: Vec<Action>)
    ensures
        r@ == seq![a, b, c],
{
    let mut out: Vec<Action> = Vec::new();
    out.push(a);
    out.push(b);
    out.push(c);
    assert(out@ =~= seq![a, b, c]);
    out
}

fn giving_up(complaint: Complaint) -> (r: (State, Vec<Action>))
    ensures
        (r.0, r.1@) == give_up(complaint),
{
    (State::Finished, two(Action::Complain(complaint), Action::Exit(1)))
}

fn succeeding(output: Output) -> (r: (State, Vec<Action>))
    ensures
        (r.0, r.1@) == succeed(output),
{
    (State::Finished, two(Action::Print(output), Action::Exit(0)))
}

fn calling(connected: bool, rpc: Rpc, state: State) -> (r: (State, Vec<Action>))
    ensures
        (r.0, r.1@) == call(connected, rpc, state),
{
    if connected {
        (state, one(Action::Call(rpc)))
    } else {
        giving_up(Complaint::DaemonUnreachable)
    }
}

/// Begins a run with the arguments `args`, the program's name first.
pub fn begin(args: &[String]) -> (r: (State, Vec<Action>))
    requires
        args@.len() >= 1,
    ensures
        (r.0, r.1@) == beginning(args@),
{
    let (_, rest) = args.split_at(1);
    assert(rest@ =~= args@.skip(1));
    if is_version_flag(rest) {
        succeeding(Output::BareVersion)
    } else {
        (State::Dialing, one(Action::Dial))
    }
}

fn verb_step(verb: Verb, connected: bool) -> (r: (State, Vec<Action>))
    ensures
        (r.0, r.1@) == verb_reaction(verb, connected),
{
    match verb {
        Verb::Version => {
            let first = Action::Print(Output::LocalVersion);
            if connected {
                let actions = two(first, Action::Call(Rpc::Version));
                assert(actions@ =~= seq![first] + seq![Action::Call(Rpc::Version)]);
                (State::AwaitingVersion, actions)
            } else {
                let complaint = Action::Complain(Complaint::DaemonUnreachable);
                let actions = three(first, complaint, Action::Exit(1));
                assert(actions@ =~= seq![first] + seq![complaint, Action::Exit(1)]);
                (State::Finished, actions)
            }
        },
        Verb::Modules { json } => calling(
            connected,
            Rpc::ListModules,
            State::AwaitingModules { json },
        ),
        Verb::Load => calling(connected, Rpc::LoadModule, State::AwaitingLoad),
        Verb::Unload => calling(connected, Rpc::UnloadModule, State::AwaitingUnload),
        Verb::Status { json } => calling(
            connected,
            Rpc::GetStatus,
            State::AwaitingStatus { json },
        ),
        Verb::Logs { lines_valid } => if lines_valid {
            calling(connected, Rpc::TailLogs, State::OpeningLogs)
        } else {
            giving_up(Complaint::InvalidLines)
        },
        Verb::Update => calling(connected, Rpc::CheckUpdate, State::CheckingUpdate),
        Verb::Module { resolved, has_args } => if !resolved {
            giving_up(Complaint::NoCommandGiven)
        } else if has_args {
            calling(connected, Rpc::Dispatch, State::OpeningDispatch)
        } else {
            (State::ReadingStdin { connected }, one(Action::ReadStdin))
        },
    }
}

/// Goes on with a run in the state `state`, in which the last thing to do came
/// out as `event` says.
pub fn step(state: State, event: Event) -> (r: (State, Vec<Action>))
    ensures
        (r.0, r.1@) == reaction(state, event),
{
    match (state, event) {
        (State::Dialing, Event::Dialed(true)) => calling(
            true,
            Rpc::ListCommands,
            State::Discovering,
        ),
        (State::Dialing, Event::Dialed(false)) => (
            State::Parsing { connected: false },
            one(Action::ParseArgs),
        ),
        (State::Discovering, Event::Answered) => (
            State::Parsing { connected: true },
            two(Action::GraftModules, Action::ParseArgs),
        ),
        (State::Discovering, Event::Failed(_)) => (
            State::Parsing { connected: true },
            two(Action::Complain(Complaint::DiscoveryFailed), Action::ParseArgs),
        ),
        (State::Parsing { .. }, Event::Parsed(Parsed::Rejected)) => (
            State::Finished,
            one(Action::ExitAsParsed),
        ),
        (State::Parsing { .. }, Event::Parsed(Parsed::NoCommand)) => succeeding(Output::Help),
        (State::Parsing { connected }, Event::Parsed(Parsed::Command(verb))) => verb_step(
            verb,
            connected,
        ),
        (State::AwaitingVersion, Event::Answered) => succeeding(Output::DaemonVersion),
        (State::AwaitingModules { json }, Event::Answered) => succeeding(
            if json {
                Output::ModulesJson
            } else {
                Output::ModulesTable
            },
        ),
        (State::AwaitingLoad, Event::Answered) => succeeding(Output::LoadSuccess),
        (State::AwaitingLoad, Event::Failed(_)) => giving_up(Complaint::LoadError),
        (State::AwaitingUnload, Event::Answered) => succeeding(Output::UnloadSuccess),
        (State::AwaitingStatus { json }, Event::Answered) => if json {
            succeeding(Output::StatusJson)
        } else {
            (
                State::Finished,
                three(
                    Action::Print(Output::StatusHeader),
                    Action::Print(Output::StatusTable),
                    Action::Exit(0),
                ),
            )
        },
        (State::OpeningLogs, Event::Answered) => (State::ReadingLogs, one(Action::NextMessage)),
        (State::OpeningLogs, Event::Failed(StatusCode::Unimplemented)) => succeeding(
            Output::TailLogsNotImplemented,
        ),
        (State::ReadingLogs, Event::Message) => (
            State::ReadingLogs,
            two(Action::Print(Output::LogLine), Action::NextMessage),
        ),
        (State::ReadingLogs, Event::Ended(_)) => (State::Finished, one(Action::Exit(0))),
        (State::CheckingUpdate, Event::Checked(choice)) => match choice {
            UpdateChoice::NoUpdateAvailable => (
                State::Finished,
                three(
                    Action::Print(Output::UpdateCheck),
                    Action::Print(Output::NoUpdatesAvailable),
                    Action::Exit(0),
                ),
            ),
            UpdateChoice::Confirm => (
                State::Confirming,
                two(Action::Print(Output::UpdateCheck), Action::Confirm),
            ),
            UpdateChoice::Apply => (
                State::ApplyingUpdate,
                two(Action::Print(Output::UpdateCheck), Action::Call(Rpc::ApplyUpdate)),
            ),
        },
        (State::Confirming, Event::Confirmed(true)) => calling(
            true,
            Rpc::ApplyUpdate,
            State::ApplyingUpdate,
        ),
        (State::Confirming, Event::Confirmed(false)) => (State::Finished, one(Action::Exit(0))),
        (State::ApplyingUpdate, Event::Applied(applied)) => succeeding(
            if applied {
                Output::UpdateApplied
            } else {
                Output::UpdateFailed
            },
        ),
        (State::ReadingStdin { connected }, Event::StdinRead) => calling(
            connected,
            Rpc::Dispatch,
            State::OpeningDispatch,
        ),
        (State::OpeningDispatch, Event::Answered) => (
            State::ReadingDispatch,
            one(Action::NextMessage),
        ),
        (State::ReadingDispatch, Event::Message) => (
            State::ReadingDispatch,
            two(Action::Print(Output::Chunk), Action::NextMessage),
        ),
        (State::ReadingDispatch, Event::Ended(code)) => (
            State::Finished,
            one(Action::Exit(exit_code_from(code))),
        ),
        (State::Dialing, Event::Failed(_)) | (State::Parsing { .. }, Event::Failed(_)) | (
            State::Confirming,
            Event::Failed(_),
        ) | (State::ReadingStdin { .. }, Event::Failed(_)) | (
            State::Finished,
            Event::Failed(_),
        ) => (state, Vec::new()),
        (_, Event::Failed(_)) => giving_up(Complaint::RpcError),
        _ => (state, Vec::new()),
    }
}

/// Whether what `actions` end in asks for the next event.
pub open spec fn asks(action: Action) -> bool {
    match action {
        Action::Dial => true,
        Action::ParseArgs => true,
        Action::Call(_) => true,
        Action::NextMessage => true,
        Action::ReadStdin => true,
        Action::Confirm => true,
        _ => false,
    }
}

/// Whether an action ends the process.
pub open spec fn exits(action: Action) -> bool {
    match action {
        Action::Exit(_) => true,
        Action::ExitAsParsed => true,
        _ => false,
    }
}

/// What is to be done at one time ends in one thing to wait for, or else in
/// the exit, with the run finished; neither stands before the end.
pub proof fn law_one_thing_to_wait_for(state: State, event: Event)
    requires
        reaction(state, event).1.len() > 0,
    ensures
        ({
            let (next, actions) = reaction(state, event);
            &&& if next == State::Finished {
                exits(actions.last())
            } else {
                asks(actions.last())
            }
            &&& forall|i: int|
                0 <= i < actions.len() - 1 ==> !asks(#[trigger] actions[i]) && !exits(actions[i])
        }),
{
}

/// Whether there is no connection to the daemon in `state`.
pub open spec fn offline(state: State) -> bool {
    state == (State::Parsing { connected: false }) || state == (State::ReadingStdin {
        connected: false,
    }) || state == State::Finished
}

/// Where the daemon could not be dialed, no call is ever made.
pub proof fn law_no_calls_when_offline(event: Event, state: State, rpc: Rpc)
    requires
        offline(state),
    ensures
        offline(reaction(State::Dialing, Event::Dialed(false)).0),
        offline(reaction(state, event).0),
        !reaction(state, event).1.contains(Action::Call(rpc)),
{
}

/// A failed call ends the run with a failure, and says so. The exceptions are
/// the listing of the module commands, without which the run goes on, and a
/// daemon that does not implement log tailing.
pub proof fn law_failed_calls_are_reported(state: State, code: StatusCode)
    requires
        awaits_call(state),
    ensures
        ({
            let (next, actions) = reaction(state, Event::Failed(code));
            if state == State::Discovering {
                next == (State::Parsing { connected: true }) && actions[0] == Action::Complain(
                    Complaint::DiscoveryFailed,
                )
            } else if state == State::OpeningLogs && code == StatusCode::Unimplemented {
                next == State::Finished && actions.last() == Action::Exit(0)
            } else {
                next == State::Finished && actions[0] is Complain && actions.last()
                    == Action::Exit(1)
            }
        }),
{
}

/// An update is applied only if the check said so or the user agreed.
pub proof fn law_updates_need_consent(state: State, event: Event)
    requires
        reaction(state, event).1.contains(Action::Call(Rpc::ApplyUpdate)),
    ensures
        (state == State::CheckingUpdate && event == Event::Checked(UpdateChoice::Apply)) || (state
            == State::Confirming && event == Event::Confirmed(true)),
{
}

/// The exit code is 0 or 1, unless a module's command gave one.
pub proof fn law_exit_codes(state: State, event: Event, code: u8)
    requires
        reaction(state, event).1.contains(Action::Exit(code)),
    ensures
        code <= 1 || (state == State::ReadingDispatch && exists|given: i32|
            event == Event::Ended(given) && code == #[trigger] clamped(given)),
{
    let (next, actions) = reaction(state, event);
    let i = choose|i: int| 0 <= i < actions.len() && actions[i] == Action::Exit(code);
    assert(actions[i] == Action::Exit(code));
    match (state, event) {
        (State::ReadingDispatch, Event::Ended(given)) => {
            assert(code == clamped(given));
        },
        _ => {},
    }
}

/// What a sequence of at most three actions holds.
proof fn lemma_short(actions: Seq<Action>)
    requires
        actions.len() <= 3,
    ensures
        forall|a: Action| #[trigger]
            actions.contains(a) <==> {
                ||| actions.len() > 0 && actions[0] == a
                ||| actions.len() > 1 && actions[1] == a
                ||| actions.len() > 2 && actions[2] == a
            },
{
}

/// Whether the arguments were just parsed to `verb`, with a connection.
pub open spec fn given(state: State, event: Event, verb: Verb) -> bool {
    state == (State::Parsing { connected: true }) && event == Event::Parsed(Parsed::Command(verb))
}

/// Whether the arguments were just parsed to `verb`, with or without a
/// connection.
pub open spec fn parsed_to(state: State, event: Event, verb: Verb) -> bool {
    state is Parsing && event == Event::Parsed(Parsed::Command(verb))
}

/// Each call is made for its own subcommand alone, and whenever that is given
/// with a connection: the one to list the commands on connecting, the one to
/// apply an update on demand or after a yes, and the one to run a module's
/// command once its arguments are there.
pub proof fn law_calls_match_subcommands(state: State, event: Event)
    ensures
        ({
            let actions = reaction(state, event).1;
            let calls = |rpc: Rpc| actions.contains(Action::Call(rpc));
            &&& calls(Rpc::ListCommands) <==> state == State::Dialing && event == Event::Dialed(
                true,
            )
            &&& calls(Rpc::Version) <==> given(state, event, Verb::Version)
            &&& calls(Rpc::ListModules) <==> exists|json: bool| #[trigger]
                given(state, event, Verb::Modules { json })
            &&& calls(Rpc::LoadModule) <==> given(state, event, Verb::Load)
            &&& calls(Rpc::UnloadModule) <==> given(state, event, Verb::Unload)
            &&& calls(Rpc::GetStatus) <==> exists|json: bool| #[trigger]
                given(state, event, Verb::Status { json })
            &&& calls(Rpc::TailLogs) <==> given(state, event, Verb::Logs { lines_valid: true })
            &&& calls(Rpc::CheckUpdate) <==> given(state, event, Verb::Update)
            &&& calls(Rpc::ApplyUpdate) <==> {
                ||| state == State::CheckingUpdate && event == Event::Checked(UpdateChoice::Apply)
                ||| state == State::Confirming && event == Event::Confirmed(true)
            }
            &&& calls(Rpc::Dispatch) <==> {
                ||| given(state, event, Verb::Module { resolved: true, has_args: true })
                ||| state == (State::ReadingStdin { connected: true }) && event
                    == Event::StdinRead
            }
        }),
{
    lemma_short(reaction(state, event).1);
    match event {
        Event::Parsed(Parsed::Command(Verb::Modules { json })) => {
            assert(state == (State::Parsing { connected: true }) ==> given(
                state,
                event,
                Verb::Modules { json },
            ));
        },
        Event::Parsed(Parsed::Command(Verb::Status { json })) => {
            assert(state == (State::Parsing { connected: true }) ==> given(
                state,
                event,
                Verb::Status { json },
            ));
        },
        _ => {},
    }
}

/// After a call its own answer is waited for, in the form that was asked for,
/// and an answer is waited for only after its call.
pub proof fn law_answers_are_awaited(state: State, event: Event)
    requires
        reaction(state, event).1.len() > 0,
    ensures
        ({
            let (next, actions) = reaction(state, event);
            let last = actions.last();
            &&& next == State::Discovering <==> last == Action::Call(Rpc::ListCommands)
            &&& next == State::AwaitingVersion <==> last == Action::Call(Rpc::Version)
            &&& next is AwaitingModules <==> last == Action::Call(Rpc::ListModules)
            &&& forall|json: bool|
                next == (State::AwaitingModules { json }) <==> #[trigger] given(
                    state,
                    event,
                    Verb::Modules { json },
                )
            &&& next == State::AwaitingLoad <==> last == Action::Call(Rpc::LoadModule)
            &&& next == State::AwaitingUnload <==> last == Action::Call(Rpc::UnloadModule)
            &&& next is AwaitingStatus <==> last == Action::Call(Rpc::GetStatus)
            &&& forall|json: bool|
                next == (State::AwaitingStatus { json }) <==> #[trigger] given(
                    state,
                    event,
                    Verb::Status { json },
                )
            &&& next == State::OpeningLogs <==> last == Action::Call(Rpc::TailLogs)
            &&& next == State::CheckingUpdate <==> last == Action::Call(Rpc::CheckUpdate)
            &&& next == State::ApplyingUpdate <==> last == Action::Call(Rpc::ApplyUpdate)
            &&& next == State::OpeningDispatch <==> last == Action::Call(Rpc::Dispatch)
            &&& next == State::Confirming <==> last == Action::Confirm
            &&& next is ReadingStdin <==> last == Action::ReadStdin
            &&& next is Parsing <==> last == Action::ParseArgs
            &&& next == State::ReadingLogs || next == State::ReadingDispatch <==> last
                == Action::NextMessage
            &&& next == State::ReadingLogs ==> state == State::OpeningLogs || state
                == State::ReadingLogs
            &&& next == State::ReadingDispatch ==> state == State::OpeningDispatch || state
                == State::ReadingDispatch
            &&& next != State::Dialing
        }),
{
}

/// That there is a connection is known from dialing, and is not forgotten.
pub proof fn law_connection_is_remembered(state: State, event: Event, connected: bool)
    ensures
        reaction(State::Dialing, Event::Dialed(false)).0 == (State::Parsing { connected: false }),
        reaction(State::Dialing, Event::Dialed(true)).0 == State::Discovering,
        reaction(state, event).0 == (State::Parsing { connected }) && state != (State::Parsing {
            connected,
        }) ==> connected == (state == State::Discovering),
        reaction(state, event).0 == (State::ReadingStdin { connected }) ==> state
            == (State::Parsing { connected }) || state == (State::ReadingStdin { connected }),
{
}

/// Each output is printed where it belongs, and nowhere else.
pub proof fn law_outputs_match_answers(state: State, event: Event)
    ensures
        ({
            let actions = reaction(state, event).1;
            let prints = |output: Output| actions.contains(Action::Print(output));
            let answered = |s: State| state == s && event == Event::Answered;
            &&& !prints(Output::BareVersion)
            &&& prints(Output::Help) <==> state is Parsing && event == Event::Parsed(
                Parsed::NoCommand,
            )
            &&& prints(Output::LocalVersion) <==> parsed_to(state, event, Verb::Version)
            &&& prints(Output::DaemonVersion) <==> answered(State::AwaitingVersion)
            &&& prints(Output::ModulesJson) <==> answered(State::AwaitingModules { json: true })
            &&& prints(Output::ModulesTable) <==> answered(State::AwaitingModules { json: false })
            &&& prints(Output::LoadSuccess) <==> answered(State::AwaitingLoad)
            &&& prints(Output::UnloadSuccess) <==> answered(State::AwaitingUnload)
            &&& prints(Output::StatusJson) <==> answered(State::AwaitingStatus { json: true })
            &&& prints(Output::StatusHeader) <==> answered(State::AwaitingStatus { json: false })
            &&& prints(Output::StatusTable) <==> answered(State::AwaitingStatus { json: false })
            &&& prints(Output::TailLogsNotImplemented) <==> state == State::OpeningLogs && event
                == Event::Failed(StatusCode::Unimplemented)
            &&& prints(Output::LogLine) <==> state == State::ReadingLogs && event == Event::Message
            &&& prints(Output::UpdateCheck) <==> state == State::CheckingUpdate && event is Checked
            &&& prints(Output::NoUpdatesAvailable) <==> state == State::CheckingUpdate && event
                == Event::Checked(UpdateChoice::NoUpdateAvailable)
            &&& prints(Output::UpdateApplied) <==> state == State::ApplyingUpdate && event
                == Event::Applied(true)
            &&& prints(Output::UpdateFailed) <==> state == State::ApplyingUpdate && event
                == Event::Applied(false)
            &&& prints(Output::Chunk) <==> state == State::ReadingDispatch && event
                == Event::Message
        }),
{
    lemma_short(reaction(state, event).1);
}

/// Each complaint is made where it belongs, and nowhere else.
pub proof fn law_complaints_match_failures(state: State, event: Event)
    ensures
        ({
            let actions = reaction(state, event).1;
            let complains = |complaint: Complaint| actions.contains(Action::Complain(complaint));
            let offline = state == (State::Parsing { connected: false });
            &&& complains(Complaint::DiscoveryFailed) <==> state == State::Discovering && event
                is Failed
            &&& complains(Complaint::InvalidLines) <==> parsed_to(
                state,
                event,
                Verb::Logs { lines_valid: false },
            )
            &&& complains(Complaint::NoCommandGiven) <==> state is Parsing && (event
                == Event::Parsed(
                Parsed::Command(Verb::Module { resolved: false, has_args: false }),
            ) || event == Event::Parsed(
                Parsed::Command(Verb::Module { resolved: false, has_args: true }),
            ))
            &&& complains(Complaint::LoadError) <==> state == State::AwaitingLoad && event
                is Failed
            &&& complains(Complaint::RpcError) <==> event is Failed && {
                ||| state == State::AwaitingVersion || state is AwaitingModules
                ||| state == State::AwaitingUnload || state is AwaitingStatus
                ||| state == State::OpeningLogs && event != Event::Failed(
                    StatusCode::Unimplemented,
                )
                ||| state == State::ReadingLogs || state == State::CheckingUpdate
                ||| state == State::ApplyingUpdate || state == State::OpeningDispatch
                ||| state == State::ReadingDispatch
            }
            &&& complains(Complaint::DaemonUnreachable) <==> {
                ||| state == (State::ReadingStdin { connected: false }) && event
                    == Event::StdinRead
                ||| offline && (event matches Event::Parsed(Parsed::Command(verb)) && verb
                    != (Verb::Logs { lines_valid: false }) && (verb is Module ==> verb
                    == (Verb::Module { resolved: true, has_args: true })))
            }
        }),
{
    lemma_short(reaction(state, event).1);
}

/// The remaining actions: the module commands are added once they are listed,
/// the arguments are parsed when it is known whether they can be, standard
/// input is read for a module's command without arguments, the user is asked
/// where an update calls for it, and messages are read from an open stream.
pub proof fn law_other_actions(state: State, event: Event)
    ensures
        ({
            let actions = reaction(state, event).1;
            &&& !actions.contains(Action::Dial)
            &&& actions.contains(Action::GraftModules) <==> state == State::Discovering && event
                == Event::Answered
            &&& actions.contains(Action::ParseArgs) <==> {
                ||| state == State::Dialing && event == Event::Dialed(false)
                ||| state == State::Discovering && (event == Event::Answered || event is Failed)
            }
            &&& actions.contains(Action::ReadStdin) <==> parsed_to(
                state,
                event,
                Verb::Module { resolved: true, has_args: false },
            )
            &&& actions.contains(Action::Confirm) <==> state == State::CheckingUpdate && event
                == Event::Checked(UpdateChoice::Confirm)
            &&& actions.contains(Action::NextMessage) <==> {
                ||| (state == State::OpeningLogs || state == State::OpeningDispatch) && event
                    == Event::Answered
                ||| (state == State::ReadingLogs || state == State::ReadingDispatch) && event
                    == Event::Message
            }
            &&& actions.contains(Action::ExitAsParsed) <==> state is Parsing && event
                == Event::Parsed(Parsed::Rejected)
        }),
{
    lemma_short(reaction(state, event).1);
}

/// A run goes on with each event that what it waits for can come out as, and
/// stays as it is with any other.
pub proof fn law_expected_events_are_met(state: State, event: Event)
    ensures
        ({
            let expected = match state {
                State::Dialing => event is Dialed,
                State::Parsing { .. } => event is Parsed,
                State::ReadingLogs | State::ReadingDispatch => event == Event::Message || event
                    is Ended || event is Failed,
                State::CheckingUpdate => event is Checked || event is Failed,
                State::Confirming => event is Confirmed,
                State::ApplyingUpdate => event is Applied || event is Failed,
                State::ReadingStdin { .. } => event == Event::StdinRead,
                State::Finished => false,
                _ => event == Event::Answered || event is Failed,
            };
            &&& expected <==> reaction(state, event).1.len() > 0
            &&& !expected ==> reaction(state, event).0 == state
        }),
{
}

/// Nothing is done twice at one time, and what introduces the rest comes first:
/// the local version, the header of the status table, the update check, the
/// module commands, and any complaint but the one after the local version.
pub proof fn law_actions_are_in_order(state: State, event: Event)
    ensures
        ({
            let actions = reaction(state, event).1;
            &&& actions.no_duplicates()
            &&& forall|i: int|
                0 <= i < actions.len() ==> (#[trigger] actions[i] == Action::Print(
                    Output::LocalVersion,
                ) || actions[i] == Action::Print(Output::StatusHeader) || actions[i]
                    == Action::Print(Output::UpdateCheck) || actions[i] == Action::GraftModules)
                    ==> i == 0
            &&& forall|i: int|
                0 <= i < actions.len() && #[trigger] actions[i] is Complain ==> i == 0 || (i == 1
                    && actions[0] == Action::Print(Output::LocalVersion))
        }),
{
}

/// A run that ends says how: it leaves the code to the argument parser if that
/// refused the arguments, passes on the code of a module's command, fails if it
/// complained, and else succeeds.
pub proof fn law_exit_code_tells_outcome(state: State, event: Event)
    requires
        reaction(state, event).1.len() > 0,
        reaction(state, event).0 == State::Finished,
    ensures
        ({
            let actions = reaction(state, event).1;
            let complained = exists|i: int|
                0 <= i < actions.len() && #[trigger] actions[i] is Complain;
            if event == Event::Parsed(Parsed::Rejected) {
                actions == seq![Action::ExitAsParsed]
            } else if state == State::ReadingDispatch && event is Ended {
                actions.len() == 1 && actions[0] is Exit
            } else {
                actions.last() == Action::Exit(
                    if complained {
                        1
                    } else {
                        0
                    },
                )
            }
        }),
{
    let actions = reaction(state, event).1;
    assert(actions.len() <= 3);
    if actions.len() == 3 {
        assert(actions[0] is Complain || actions[1] is Complain || !(actions[2] is Complain));
    } else if actions.len() == 2 {
        assert(actions[0] is Complain || !(actions[1] is Complain));
    }
}

/// When the stream of a module's command ends, the run exits with its code as
/// it is, if a process can: a lower code counts as 0 and a higher one as 255.
pub proof fn law_exit_code_is_passed_on(code: i32)
    ensures
        reaction(State::ReadingDispatch, Event::Ended(code)).0 == State::Finished,
        reaction(State::ReadingDispatch, Event::Ended(code)).1.len() == 1,
        reaction(State::ReadingDispatch, Event::Ended(code)).1[0] matches Action::Exit(exit) && {
            &&& 0 <= code <= 255 ==> exit as int == code as int
            &&& code < 0 ==> exit == 0
            &&& code > 255 ==> exit == 255
        },
        0 <= code <= 255 ==> clamped(code) as int == code as int,
        code < 0 ==> clamped(code) == 0,
        code > 255 ==> clamped(code) == 255,
{
}

/// A run begins with the version, and ends at once, exactly if that is all that
/// the arguments ask for; else it begins with dialing.
pub proof fn law_beginning(args: Seq<String>)
    requires
        args.len() >= 1,
    ensures
        ({
            let bare = args.len() == 2 && (args[1]@ == "--version"@ || args[1]@ == "-V"@);
            let (state, actions) = beginning(args);
            &&& bare ==> state == State::Finished && actions == seq![
                Action::Print(Output::BareVersion),
                Action::Exit(0),
            ]
            &&& !bare ==> state == State::Dialing && actions == seq![Action::Dial]
        }),
{
    assert(args.len() == 2 ==> args.skip(1)[0] == args[1]);
}

/// A subcommand is told by its own name alone, and any other name is a module's.
pub proof fn law_verbs_are_told_by_name(name: Seq<char>)
    ensures
        verb_named(name) == VerbName::Version <==> name == "version"@,
        verb_named(name) == VerbName::Modules <==> name == "modules"@,
        verb_named(name) == VerbName::Load <==> name == "load"@,
        verb_named(name) == VerbName::Unload <==> name == "unload"@,
        verb_named(name) == VerbName::Status <==> name == "status"@,
        verb_named(name) == VerbName::Logs <==> name == "logs"@,
        verb_named(name) == VerbName::Update <==> name == "update"@,
{
    reveal_strlit("version");
    reveal_strlit("modules");
    reveal_strlit("load");
    reveal_strlit("unload");
    reveal_strlit("status");
    reveal_strlit("logs");
    reveal_strlit("update");
    assert("version"@[0] == 'v' && "modules"@[0] == 'm' && "load"@[2] == 'a' && "logs"@[2] == 'g');
    assert("load"@[0] == 'l' && "logs"@[0] == 'l' && "status"@[0] == 's');
    assert("unload"@[1] == 'n' && "update"@[1] == 'p');
    assert("unload"@[0] == 'u' && "update"@[0] == 'u');
}

/// How long each call may take: listing commands three tenths of a second, the
/// version a second, streams half a minute to open, an update a minute, and
/// everything else five seconds.
pub proof fn law_timeouts(rpc: Rpc)
    ensures
        rpc == Rpc::ListCommands ==> rpc_timeout_ms(rpc) == 300,
        rpc == Rpc::Version ==> rpc_timeout_ms(rpc) == 1_000,
        rpc == Rpc::TailLogs || rpc == Rpc::Dispatch ==> rpc_timeout_ms(rpc) == 30_000,
        rpc == Rpc::ApplyUpdate ==> rpc_timeout_ms(rpc) == 60_000,
        rpc == Rpc::ListModules || rpc == Rpc::LoadModule || rpc == Rpc::UnloadModule || rpc
            == Rpc::GetStatus || rpc == Rpc::CheckUpdate ==> rpc_timeout_ms(rpc) == 5_000,
{
}

/// How many more events a run waits for, at most, the messages of a stream
/// aside.
pub open spec fn remaining(state: State) -> nat {
    match state {
        State::Dialing => 6,
        State::Discovering => 5,
        State::Parsing { .. } => 4,
        State::ReadingStdin { .. } => 3,
        State::CheckingUpdate => 3,
        State::Confirming => 2,
        State::OpeningLogs => 2,
        State::OpeningDispatch => 2,
        State::Finished => 0,
        _ => 1,
    }
}

/// A run comes to an end: each event that it reacts to brings it closer, the
/// messages of a stream aside.
pub proof fn law_runs_end(state: State, event: Event)
    requires
        reaction(state, event).1.len() > 0,
        event != Event::Message,
    ensures
        remaining(reaction(state, event).0) < remaining(state),
{
}

/// The line on standard error for an error message.
pub fn error_line(message: &str) -> (r: String)
    ensures
        r@ == "penguin: "@ + message@,
{
    let mut out = "penguin: ".to_owned();
    out.append(message);
    out
}

/// The line on standard error where the module commands could not be listed.
pub fn discovery_warning(message: &str) -> (r: String)
    ensures
        r@ == "penguin: warning: could not list module commands: "@ + message@,
{
    let mut out = "penguin: warning: could not list module commands: ".to_owned();
    out.append(message);
    out
}

/// The line on standard error where no command of the module was given.
pub fn no_command_line(module: &str) -> (r: String)
    ensures
        r@ == "penguin: no command given for module "@ + debug_text(module@),
{
    let mut out = "penguin: no command given for module ".to_owned();
    out.append(debug_quoted(module).as_str());
    out
}

/// The first of `modules` that has the name `name`.
pub fn find_module(modules: &[String], name: &str) -> (r: Option<usize>)
    ensures
        match r {
            Some(i) => i < modules@.len() && modules@[i as int]@ == name@ && forall|j: int|
                0 <= j < i ==> (#[trigger] modules@[j])@ != name@,
            None => forall|j: int| 0 <= j < modules@.len() ==> (#[trigger] modules@[j])@ != name@,
        },
{
    let mut i: usize = 0;
    while i < modules.len()
        invariant
            i <= modules@.len(),
            forall|j: int| 0 <= j < i ==> (#[trigger] modules@[j])@ != name@,
        decreases modules@.len() - i,
    {
        if str_eq(modules[i].as_str(), name) {
            return Some(i);
        }
        i += 1;
    }
    None
}

/// What was piped in: what `read` gives, unless it is empty. A terminal is not
/// read from.
pub fn piped_input<R: FnOnce() -> Option<String>>(terminal: bool, read: R) -> (r: Option<String>)
    requires
        !terminal ==> call_requires(read, ()),
    ensures
        terminal ==> r is None,
        !terminal ==> exists|input: Option<String>| #[trigger]
            call_ensures(read, (), input) && match input {
                Some(text) => if text@.len() == 0 {
                    r is None
                } else {
                    r == Some(text)
                },
                None => r is None,
            },
{
    if terminal {
        return None;
    }
    match read() {
        Some(text) => if text.as_str().is_empty() {
            None
        } else {
            Some(text)
        },
        None => None,
    }
}

/// Whether the user agrees: `flush` shows the prompt, `read` gives the answer,
/// and `accept` judges it. A failure of the first two is a refusal.
pub fn confirm<F, R, A>(flush: F, read: R, accept: A) -> (r: bool)
    where F: FnOnce() -> bool, R: FnOnce() -> Option<String>, A: FnOnce(String) -> bool
    requires
        call_requires(flush, ()),
        call_requires(read, ()),
        forall|answer: String| call_requires(accept, (answer,)),
    ensures
        ({
            ||| call_ensures(flush, (), false) && !r
            ||| call_ensures(flush, (), true) && call_ensures(read, (), None) && !r
            ||| call_ensures(flush, (), true) && exists|answer: String| #[trigger]
                call_ensures(read, (), Some(answer)) && call_ensures(accept, (answer,), r)
        }),
{
    if !flush() {
        return false;
    }
    match read() {
        Some(answer) => accept(answer),
        None => false,
    }
}

/// What came of a call that may take only so long: `finished` is its outcome,
/// if it came in time, and `late` stands for one that did not.
pub fn with_timeout<T, E>(finished: Option<Result<T, E>>, late: E) -> (r: Result<T, E>)
    ensures
        r == match finished {
            Some(outcome) => outcome,
            None => Err(late),
        },
{
    match finished {
        Some(outcome) => outcome,
        None => Err(late),
    }
}

/// The connection, if dialing succeeded in time. That it did not is no error.
pub fn dialed<T, E>(finished: Option<Result<T, E>>) -> (r: Option<T>)
    ensures
        r == match finished {
            Some(Ok(connection)) => Some(connection),
            _ => None,
        },
{
    match finished {
        Some(Ok(connection)) => Some(connection),
        _ => None,
    }
}

/// What the arguments of a subcommand say.
pub struct CommandArgs {
    /// The module, where one is named.
    pub module: Option<String>,
    /// How many log lines to show.
    pub lines: i32,
    /// Whether to wait for further log lines.
    pub follow: bool,
}

/// What is sent with a call. Fields that a call has no use for are empty.
#[derive(Debug, PartialEq, Eq)]
pub struct Request {
    pub api_version: String,
    pub module: String,
    pub lines: i32,
    pub follow: bool,
}

/// Whether a call names a module.
pub open spec fn names_module(rpc: Rpc) -> bool {
    rpc == Rpc::LoadModule || rpc == Rpc::UnloadModule || rpc == Rpc::GetStatus || rpc
        == Rpc::TailLogs
}

/// What is sent with a call other than [`Rpc::Dispatch`]. Where no module is
/// named, the name that is sent is empty: it stands for all modules, or for
/// the daemon itself.
pub fn request_for(rpc: Rpc, api_version: &str, args: &CommandArgs) -> (r: Request)
    requires
        rpc != Rpc::Dispatch,
        rpc == Rpc::LoadModule || rpc == Rpc::UnloadModule ==> args.module is Some,
    ensures
        r.api_version@ == api_version@,
        r.module@ == match args.module {
            Some(module) => if names_module(rpc) {
                module@
            } else {
                Seq::empty()
            },
            None => Seq::empty(),
        },
        (rpc == Rpc::LoadModule || rpc == Rpc::UnloadModule || rpc == Rpc::GetStatus || rpc
            == Rpc::TailLogs) ==> (args.module matches Some(module) ==> r.module@ == module@),
        !(rpc == Rpc::LoadModule || rpc == Rpc::UnloadModule || rpc == Rpc::GetStatus || rpc
            == Rpc::TailLogs) ==> r.module@.len() == 0,
        r.lines == if rpc == Rpc::TailLogs {
            args.lines
        } else {
            0
        },
        r.follow == (rpc == Rpc::TailLogs && args.follow),
{
    let named = match rpc {
        Rpc::LoadModule | Rpc::UnloadModule | Rpc::GetStatus | Rpc::TailLogs => true,
        _ => false,
    };
    let module = match &args.module {
        Some(module) => if named {
            module.clone()
        } else {
            String::new()
        },
        None => String::new(),
    };
    let tail = rpc == Rpc::TailLogs;
    let lines: i32 = if tail {
        args.lines
    } else {
        0
    };
    Request { api_version: api_version.to_owned(), module, lines, follow: tail && args.follow }
}

/// Loading, unloading, the status and the logs are of a module, and no other
/// call is.
pub proof fn law_calls_that_name_modules(rpc: Rpc)
    ensures
        names_module(rpc) <==> rpc == Rpc::LoadModule || rpc == Rpc::UnloadModule || rpc
            == Rpc::GetStatus || rpc == Rpc::TailLogs,
{
}

} // verus!
