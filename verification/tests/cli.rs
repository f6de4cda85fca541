use penguin::cli::{
    begin, confirm, dialed, discovery_warning, error_line, exit_code_from, find_module,
    is_version_flag, no_command_line, piped_input, request_for, step, verb_for, with_timeout,
    Action, CommandArgs, Complaint, Event, Output, Parsed, Request, Rpc, State, StatusCode,
    UpdateChoice, Verb, VerbName,
};

fn parsed(verb: Verb) -> Event {
    Event::Parsed(Parsed::Command(verb))
}

fn online(verb: Verb) -> (State, Vec<Action>) {
    step(State::Parsing { connected: true }, parsed(verb))
}

fn offline(verb: Verb) -> (State, Vec<Action>) {
    step(State::Parsing { connected: false }, parsed(verb))
}

fn gave_up(complaint: Complaint) -> (State, Vec<Action>) {
    (State::Finished, vec![Action::Complain(complaint), Action::Exit(1)])
}

fn succeeded(output: Output) -> (State, Vec<Action>) {
    (State::Finished, vec![Action::Print(output), Action::Exit(0)])
}

#[test]
fn version_flag_matches_both_spellings_and_nothing_else() {
    let owned = |s: &str| s.to_string();
    assert!(is_version_flag(&[owned("--version")]));
    assert!(is_version_flag(&[owned("-V")]));
    assert!(!is_version_flag(&[]));
    assert!(!is_version_flag(&[owned("version")]));
    assert!(!is_version_flag(&[owned("--version"), owned("extra")]));
    assert!(!is_version_flag(&[owned("--socket"), owned("/tmp/x")]));
}

#[test]
fn the_version_flag_is_answered_without_dialing() {
    let args = ["pdcli".to_string(), "-V".to_string()];
    assert_eq!(begin(&args), succeeded(Output::BareVersion));
    let args = ["-V".to_string()];
    assert_eq!(begin(&args), (State::Dialing, vec![Action::Dial]));
}

#[test]
fn exit_codes_are_clamped() {
    assert_eq!(exit_code_from(i32::MIN), 0);
    assert_eq!(exit_code_from(-1), 0);
    assert_eq!(exit_code_from(0), 0);
    assert_eq!(exit_code_from(3), 3);
    assert_eq!(exit_code_from(255), 255);
    assert_eq!(exit_code_from(256), 255);
    assert_eq!(exit_code_from(i32::MAX), 255);
}

#[test]
fn verbs_are_told_by_name() {
    assert_eq!(verb_for("version"), VerbName::Version);
    assert_eq!(verb_for("modules"), VerbName::Modules);
    assert_eq!(verb_for("load"), VerbName::Load);
    assert_eq!(verb_for("unload"), VerbName::Unload);
    assert_eq!(verb_for("status"), VerbName::Status);
    assert_eq!(verb_for("logs"), VerbName::Logs);
    assert_eq!(verb_for("update"), VerbName::Update);
    assert_eq!(verb_for("squawk"), VerbName::Module);
    assert_eq!(verb_for(""), VerbName::Module);
}

#[test]
fn calls_have_their_timeouts() {
    assert_eq!(Rpc::ListCommands.timeout_ms(), 300);
    assert_eq!(Rpc::Version.timeout_ms(), 1000);
    assert_eq!(Rpc::ListModules.timeout_ms(), 5000);
    assert_eq!(Rpc::CheckUpdate.timeout_ms(), 5000);
    assert_eq!(Rpc::TailLogs.timeout_ms(), 30000);
    assert_eq!(Rpc::Dispatch.timeout_ms(), 30000);
    assert_eq!(Rpc::ApplyUpdate.timeout_ms(), 60000);
}

#[test]
fn module_commands_are_listed_when_there_is_a_daemon() {
    assert_eq!(
        step(State::Dialing, Event::Dialed(true)),
        (State::Discovering, vec![Action::Call(Rpc::ListCommands)])
    );
    assert_eq!(
        step(State::Discovering, Event::Answered),
        (
            State::Parsing { connected: true },
            vec![Action::GraftModules, Action::ParseArgs]
        )
    );
    assert_eq!(
        step(State::Discovering, Event::Failed(StatusCode::Other)),
        (
            State::Parsing { connected: true },
            vec![Action::Complain(Complaint::DiscoveryFailed), Action::ParseArgs]
        )
    );
    assert_eq!(
        step(State::Dialing, Event::Dialed(false)),
        (State::Parsing { connected: false }, vec![Action::ParseArgs])
    );
}

#[test]
fn without_a_command_help_is_printed() {
    let parsing = State::Parsing { connected: false };
    assert_eq!(step(parsing, Event::Parsed(Parsed::NoCommand)), succeeded(Output::Help));
    assert_eq!(
        step(parsing, Event::Parsed(Parsed::Rejected)),
        (State::Finished, vec![Action::ExitAsParsed])
    );
}

#[test]
fn without_a_daemon_every_verb_fails() {
    for verb in [
        Verb::Modules { json: false },
        Verb::Load,
        Verb::Unload,
        Verb::Status { json: true },
        Verb::Logs { lines_valid: true },
        Verb::Update,
        Verb::Module { resolved: true, has_args: true },
    ] {
        assert_eq!(offline(verb), gave_up(Complaint::DaemonUnreachable));
    }
    assert_eq!(
        offline(Verb::Version),
        (
            State::Finished,
            vec![
                Action::Print(Output::LocalVersion),
                Action::Complain(Complaint::DaemonUnreachable),
                Action::Exit(1)
            ]
        )
    );
}

#[test]
fn version_prints_both_versions() {
    assert_eq!(
        online(Verb::Version),
        (
            State::AwaitingVersion,
            vec![Action::Print(Output::LocalVersion), Action::Call(Rpc::Version)]
        )
    );
    assert_eq!(
        step(State::AwaitingVersion, Event::Answered),
        succeeded(Output::DaemonVersion)
    );
    assert_eq!(
        step(State::AwaitingVersion, Event::Failed(StatusCode::Unimplemented)),
        gave_up(Complaint::RpcError)
    );
}

#[test]
fn modules_and_status_come_as_json_or_tables() {
    assert_eq!(
        step(State::AwaitingModules { json: true }, Event::Answered),
        succeeded(Output::ModulesJson)
    );
    assert_eq!(
        step(State::AwaitingModules { json: false }, Event::Answered),
        succeeded(Output::ModulesTable)
    );
    assert_eq!(
        step(State::AwaitingStatus { json: true }, Event::Answered),
        succeeded(Output::StatusJson)
    );
    assert_eq!(
        step(State::AwaitingStatus { json: false }, Event::Answered),
        (
            State::Finished,
            vec![
                Action::Print(Output::StatusHeader),
                Action::Print(Output::StatusTable),
                Action::Exit(0)
            ]
        )
    );
}

#[test]
fn loading_has_its_own_error() {
    assert_eq!(online(Verb::Load), (State::AwaitingLoad, vec![Action::Call(Rpc::LoadModule)]));
    assert_eq!(
        step(State::AwaitingLoad, Event::Failed(StatusCode::Other)),
        gave_up(Complaint::LoadError)
    );
    assert_eq!(step(State::AwaitingLoad, Event::Answered), succeeded(Output::LoadSuccess));
    assert_eq!(
        step(State::AwaitingUnload, Event::Failed(StatusCode::Other)),
        gave_up(Complaint::RpcError)
    );
    assert_eq!(step(State::AwaitingUnload, Event::Answered), succeeded(Output::UnloadSuccess));
}

#[test]
fn logs_are_read_to_the_end_of_the_stream() {
    assert_eq!(
        offline(Verb::Logs { lines_valid: false }),
        gave_up(Complaint::InvalidLines)
    );
    assert_eq!(
        online(Verb::Logs { lines_valid: true }),
        (State::OpeningLogs, vec![Action::Call(Rpc::TailLogs)])
    );
    assert_eq!(
        step(State::OpeningLogs, Event::Failed(StatusCode::Unimplemented)),
        succeeded(Output::TailLogsNotImplemented)
    );
    assert_eq!(
        step(State::OpeningLogs, Event::Failed(StatusCode::Other)),
        gave_up(Complaint::RpcError)
    );
    assert_eq!(
        step(State::OpeningLogs, Event::Answered),
        (State::ReadingLogs, vec![Action::NextMessage])
    );
    assert_eq!(
        step(State::ReadingLogs, Event::Message),
        (
            State::ReadingLogs,
            vec![Action::Print(Output::LogLine), Action::NextMessage]
        )
    );
    assert_eq!(
        step(State::ReadingLogs, Event::Ended(7)),
        (State::Finished, vec![Action::Exit(0)])
    );
    assert_eq!(
        step(State::ReadingLogs, Event::Failed(StatusCode::Unimplemented)),
        gave_up(Complaint::RpcError)
    );
}

#[test]
fn updates_are_applied_on_demand_or_after_a_yes() {
    let check = Action::Print(Output::UpdateCheck);
    assert_eq!(
        step(State::CheckingUpdate, Event::Checked(UpdateChoice::NoUpdateAvailable)),
        (
            State::Finished,
            vec![check, Action::Print(Output::NoUpdatesAvailable), Action::Exit(0)]
        )
    );
    assert_eq!(
        step(State::CheckingUpdate, Event::Checked(UpdateChoice::Apply)),
        (State::ApplyingUpdate, vec![check, Action::Call(Rpc::ApplyUpdate)])
    );
    assert_eq!(
        step(State::CheckingUpdate, Event::Checked(UpdateChoice::Confirm)),
        (State::Confirming, vec![check, Action::Confirm])
    );
    assert_eq!(
        step(State::Confirming, Event::Confirmed(true)),
        (State::ApplyingUpdate, vec![Action::Call(Rpc::ApplyUpdate)])
    );
    assert_eq!(
        step(State::Confirming, Event::Confirmed(false)),
        (State::Finished, vec![Action::Exit(0)])
    );
    assert_eq!(
        step(State::ApplyingUpdate, Event::Applied(true)),
        succeeded(Output::UpdateApplied)
    );
    assert_eq!(
        step(State::ApplyingUpdate, Event::Applied(false)),
        succeeded(Output::UpdateFailed)
    );
}

#[test]
fn module_commands_may_read_standard_input() {
    assert_eq!(
        online(Verb::Module { resolved: false, has_args: true }),
        gave_up(Complaint::NoCommandGiven)
    );
    assert_eq!(
        online(Verb::Module { resolved: true, has_args: true }),
        (State::OpeningDispatch, vec![Action::Call(Rpc::Dispatch)])
    );
    assert_eq!(
        offline(Verb::Module { resolved: true, has_args: false }),
        (State::ReadingStdin { connected: false }, vec![Action::ReadStdin])
    );
    assert_eq!(
        step(State::ReadingStdin { connected: false }, Event::StdinRead),
        gave_up(Complaint::DaemonUnreachable)
    );
    assert_eq!(
        step(State::ReadingStdin { connected: true }, Event::StdinRead),
        (State::OpeningDispatch, vec![Action::Call(Rpc::Dispatch)])
    );
    assert_eq!(
        step(State::ReadingDispatch, Event::Message),
        (
            State::ReadingDispatch,
            vec![Action::Print(Output::Chunk), Action::NextMessage]
        )
    );
    assert_eq!(
        step(State::ReadingDispatch, Event::Ended(300)),
        (State::Finished, vec![Action::Exit(255)])
    );
}

#[test]
fn a_finished_run_does_nothing_more() {
    assert_eq!(step(State::Finished, Event::Answered), (State::Finished, vec![]));
    assert_eq!(
        step(State::Finished, Event::Failed(StatusCode::Other)),
        (State::Finished, vec![])
    );
}

#[test]
fn lines_on_standard_error() {
    assert_eq!(error_line("x"), "penguin: x");
    assert_eq!(
        discovery_warning("late"),
        "penguin: warning: could not list module commands: late"
    );
    assert_eq!(
        no_command_line("sq\"uawk"),
        "penguin: no command given for module \"sq\\\"uawk\""
    );
}

#[test]
fn the_first_module_of_a_name_is_found() {
    let modules = ["a".to_string(), "b".to_string(), "b".to_string()];
    assert_eq!(find_module(&modules, "b"), Some(1));
    assert_eq!(find_module(&modules, "c"), None);
    assert_eq!(find_module(&[], "a"), None);
}

#[test]
fn piped_input_is_never_read_from_a_terminal() {
    assert_eq!(piped_input(true, || unreachable!("a terminal")), None);
    assert_eq!(piped_input(false, || Some("".to_string())), None);
    assert_eq!(piped_input(false, || None), None);
    assert_eq!(
        piped_input(false, || Some("secret\n".to_string())),
        Some("secret\n".to_string())
    );
}

#[test]
fn only_an_accepted_answer_confirms() {
    let accept = |answer: String| answer == "y\n";
    assert!(confirm(|| true, || Some("y\n".to_string()), accept));
    assert!(!confirm(|| true, || Some("n\n".to_string()), accept));
    assert!(!confirm(|| true, || None, |_| true));
    assert!(!confirm(|| false, || Some("y\n".to_string()), |_| true));
}

#[test]
fn a_late_call_counts_as_failed() {
    assert_eq!(with_timeout(Some(Ok::<u8, &str>(1)), "late"), Ok(1));
    assert_eq!(with_timeout(Some(Err::<u8, &str>("refused")), "late"), Err("refused"));
    assert_eq!(with_timeout(None::<Result<u8, &str>>, "late"), Err("late"));
    assert_eq!(dialed(Some(Ok::<u8, &str>(1))), Some(1));
    assert_eq!(dialed(Some(Err::<u8, &str>("refused"))), None);
    assert_eq!(dialed(None::<Result<u8, &str>>), None);
}

#[test]
fn requests_hold_what_the_call_needs() {
    let args = |module: Option<&str>| CommandArgs {
        module: module.map(str::to_string),
        lines: 50,
        follow: true,
    };
    let request = |module: &str, lines: i32, follow: bool| Request {
        api_version: "v1".to_string(),
        module: module.to_string(),
        lines,
        follow,
    };
    assert_eq!(request_for(Rpc::LoadModule, "v1", &args(Some("squawk"))), request("squawk", 0, false));
    assert_eq!(request_for(Rpc::GetStatus, "v1", &args(None)), request("", 0, false));
    assert_eq!(request_for(Rpc::TailLogs, "v1", &args(None)), request("", 50, true));
    assert_eq!(request_for(Rpc::TailLogs, "v1", &args(Some("m"))), request("m", 50, true));
    assert_eq!(request_for(Rpc::Version, "v1", &args(Some("m"))), request("", 0, false));
}
