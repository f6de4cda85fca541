use penguin::daemon_main::{
    config_warning, effective_config, exit_report, runtime_failure, Daemon, DaemonAction,
    DaemonBinError, DaemonConfig, DaemonEvent,
};
use penguin::paths::join;
use penguin::text::{hex_encode, numeral_text, str_eq};

fn config(socket: &str) -> DaemonConfig {
    DaemonConfig {
        socket_path: socket.to_string(),
        group: "penguin".to_string(),
        log_level: "info".to_string(),
        plugins_dir: "/usr/lib/penguin/plugins".to_string(),
    }
}

fn failed(reason: &str) -> DaemonEvent {
    DaemonEvent::Failed(reason.to_string())
}

fn start() -> Daemon {
    Daemon::start(b"/var/lib/penguind".to_vec(), config("/run/penguind.sock"))
}

fn ok_event(action: &DaemonAction) -> DaemonEvent {
    match action {
        DaemonAction::StartLicense { .. } => DaemonEvent::OtelFlag(true),
        DaemonAction::StartOtel { .. } => DaemonEvent::OtelStarted(true),
        _ => DaemonEvent::Done,
    }
}

#[test]
fn a_run_goes_through_its_stages_in_order() {
    let state = |name: &str| join(b"/var/lib/penguind", name.as_bytes());
    let expected = vec![
        DaemonAction::CreateDir { path: b"/var/lib/penguind".to_vec(), mode: 0o700 },
        DaemonAction::AcquireLock { dir: b"/var/lib/penguind".to_vec() },
        DaemonAction::StartLicense {
            cache_dir: state("license"),
            flag: "penguind.otel-telemetry",
        },
        DaemonAction::StartOtel { enabled: true },
        DaemonAction::InstallLogging { level: "info".to_string() },
        DaemonAction::SetUpTelemetry { level: "info".to_string() },
        DaemonAction::RegisterHistogram {
            name: "penguind_telemetry_init_duration_seconds",
            help: "Time to initialize the daemon's logging, metrics, and (if enabled) OTel pipeline.",
        },
        DaemonAction::OpenSecrets { dir: state("secrets") },
        DaemonAction::CreateDir { path: state("plugin-sockets"), mode: 0o700 },
        DaemonAction::RestoreModules {
            plugins_dir: "/usr/lib/penguin/plugins".to_string(),
            plugin_sockets: state("plugin-sockets"),
        },
        DaemonAction::Listen {
            socket: "/run/penguind.sock".to_string(),
            group: "penguin".to_string(),
        },
        DaemonAction::Serve { group: "penguin".to_string() },
        DaemonAction::StopModules,
        DaemonAction::StopLicense,
        DaemonAction::StopOtel { budget_secs: 8 },
        DaemonAction::RemoveSocket { socket: "/run/penguind.sock".to_string() },
    ];
    let mut daemon = start();
    let mut seen = Vec::new();
    while daemon.action() != DaemonAction::Exit {
        let action = daemon.action();
        daemon = daemon.next(ok_event(&action));
        seen.push(action);
    }
    assert_eq!(seen, expected);
    assert_eq!(daemon.outcome(), &None);
    assert_eq!(exit_report(daemon.outcome()), (None, 0));
}

#[test]
fn export_that_is_off_or_failed_is_not_stopped() {
    for (flag, started) in [(false, true), (true, false), (false, false)] {
        let mut daemon = start();
        let mut stopped = false;
        while daemon.action() != DaemonAction::Exit {
            let action = daemon.action();
            stopped = stopped || matches!(action, DaemonAction::StopOtel { .. });
            let event = match action {
                DaemonAction::StartLicense { .. } => DaemonEvent::OtelFlag(flag),
                DaemonAction::StartOtel { enabled } => {
                    assert_eq!(enabled, flag);
                    DaemonEvent::OtelStarted(started)
                }
                _ => DaemonEvent::Done,
            };
            daemon = daemon.next(event);
        }
        assert!(!stopped);
    }
}

fn fail_at(stage: usize) -> (Daemon, DaemonAction) {
    let mut daemon = start();
    for _ in 0..stage {
        let action = daemon.action();
        daemon = daemon.next(ok_event(&action));
    }
    let daemon = daemon.next(failed("why"));
    let action = daemon.action();
    (daemon, action)
}

#[test]
fn fatal_failures_end_the_start_with_their_error() {
    let why = || "why".to_string();
    for (stage, error, line) in [
        (0, DaemonBinError::StateDir(why()), "penguind: create state dir: why"),
        (1, DaemonBinError::Lock(why()), "penguind: why"),
        (5, DaemonBinError::Telemetry(why()), "penguind: why"),
        (6, DaemonBinError::Telemetry(why()), "penguind: why"),
        (7, DaemonBinError::Secrets(why()), "penguind: init secrets store: why"),
        (10, DaemonBinError::Listen(why()), "penguind: why"),
    ] {
        let (daemon, action) = fail_at(stage);
        assert_eq!(action, DaemonAction::Exit);
        assert_eq!(daemon.outcome(), &Some(error));
        assert_eq!(exit_report(daemon.outcome()), (Some(line.to_string()), 1));
    }
}

#[test]
fn a_missing_plugin_socket_directory_is_survived() {
    let (daemon, action) = fail_at(8);
    assert!(matches!(action, DaemonAction::RestoreModules { .. }));
    assert_eq!(daemon.outcome(), &None);
}

#[test]
fn a_failed_server_is_still_cleaned_up() {
    let (mut daemon, action) = fail_at(11);
    assert_eq!(action, DaemonAction::StopModules);
    let mut seen = Vec::new();
    while daemon.action() != DaemonAction::Exit {
        seen.push(daemon.action());
        daemon = daemon.next(failed("ignored"));
    }
    assert_eq!(
        seen,
        vec![
            DaemonAction::StopModules,
            DaemonAction::StopLicense,
            DaemonAction::StopOtel { budget_secs: 8 },
            DaemonAction::RemoveSocket { socket: "/run/penguind.sock".to_string() },
        ]
    );
    assert_eq!(daemon.outcome(), &Some(DaemonBinError::Serve("why".to_string())));
    assert_eq!(
        exit_report(daemon.outcome()),
        (Some("penguind: serve: why".to_string()), 1)
    );
}

#[test]
fn the_socket_argument_overrides_the_configuration() {
    let chosen = effective_config(Ok(config("/a")), config("/d"), "");
    assert_eq!(chosen.socket_path, "/a");
    let chosen = effective_config(Ok(config("/a")), config("/d"), "/s");
    assert_eq!(chosen.socket_path, "/s");
    assert_eq!(chosen.group, "penguin");
    let chosen = effective_config(Err("bad yaml".to_string()), config("/d"), "");
    assert_eq!(chosen.socket_path, "/d");
    assert_eq!(
        config_warning("bad yaml"),
        "penguind: invalid daemon config, using defaults: bad yaml"
    );
    assert_eq!(runtime_failure("x"), "penguind: build async runtime: x");
}

#[test]
fn paths_join_with_one_separator() {
    assert_eq!(join(b"/a", b"b"), b"/a/b".to_vec());
    assert_eq!(join(b"/a/", b"b"), b"/a/b".to_vec());
    assert_eq!(join(b"", b"b"), b"b".to_vec());
    assert_eq!(join(b"/a", b"/b"), b"/b".to_vec());
    assert_eq!(join(b"/a", b""), b"/a/".to_vec());
}

#[test]
fn numerals_and_hexadecimal_text() {
    assert_eq!(numeral_text(0, 16), "0");
    assert_eq!(numeral_text(u64::MAX, 16), "ffffffffffffffff");
    assert_eq!(numeral_text(1234567890, 10), "1234567890");
    assert_eq!(numeral_text(5, 2), "101");
    assert_eq!(hex_encode(b""), "");
    assert_eq!(hex_encode(&[0, 15, 16, 255]), "000f10ff");
    assert!(str_eq("é", "é"));
    assert!(!str_eq("a", "b"));
    assert!(!str_eq("a", "ab"));
}
