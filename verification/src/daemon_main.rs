//! The daemon's run: the order in which it starts, what ends the start, and
//! what is cleaned up when it stops.
//!
//! [`Daemon`] decides what is to be done next; its caller does it and reports
//! how it went.

use crate::otel::OTEL_SHUTDOWN_BUDGET_SECS;
use crate::paths::{join, joined};
use vstd::prelude::*;
use vstd::string::*;
use vstd::utf8::*;

verus! {

/// The permission bits of a new state directory: all for its owner.
pub const STATE_DIR_MODE: u32 = 0o700;

/// How many log lines are kept for each source.
pub const LOG_RING_CAPACITY: usize = 2000;

/// How many events are buffered for each subscriber.
pub const EVENT_BROKER_CAPACITY: usize = 256;

/// How often a module's health is polled, in seconds.
pub const HEALTH_POLL_INTERVAL_SECS: u64 = 30;

/// How long a module must run before a failure gives it all its restarts back,
/// in seconds.
pub const STABILITY_WINDOW_SECS: u64 = 300;

/// How often the license is validated again, in seconds.
pub const LICENSE_REFRESH_INTERVAL_SECS: u64 = 300;

/// The feature flag that OTLP export hangs on.
pub const OTEL_TELEMETRY_FLAG: &'static str = "penguind.otel-telemetry";

/// The histogram of how long setting telemetry up took.
pub const INIT_HISTOGRAM_NAME: &'static str = "penguind_telemetry_init_duration_seconds";

/// What [`INIT_HISTOGRAM_NAME`] measures.
pub const INIT_HISTOGRAM_HELP: &'static str =
    "Time to initialize the daemon's logging, metrics, and (if enabled) OTel pipeline.";

/// What the daemon is configured with.
pub struct DaemonConfig {
    /// The control socket.
    pub socket_path: String,
    /// The group that may use the control socket.
    pub group: String,
    /// The log level.
    pub log_level: String,
    /// The directory of external plugins.
    pub plugins_dir: String,
}

/// What a [`DaemonConfig`] holds.
pub struct DaemonConfigView {
    pub socket_path: Seq<char>,
    pub group: Seq<char>,
    pub log_level: Seq<char>,
    pub plugins_dir: Seq<char>,
}

impl View for DaemonConfig {
    type V = DaemonConfigView;

    open spec fn view(&self) -> DaemonConfigView {
        DaemonConfigView {
            socket_path: self.socket_path@,
            group: self.group@,
            log_level: self.log_level@,
            plugins_dir: self.plugins_dir@,
        }
    }
}

/// The configuration to run with: what was loaded, or else the defaults; a
/// `socket` that is not empty overrides the control socket.
pub fn effective_config(
    loaded: Result<DaemonConfig, String>,
    defaults: DaemonConfig,
    socket: &str,
) -> (r: DaemonConfig)
    ensures
        ({
            let base = match loaded {
                Ok(config) => config@,
                Err(_) => defaults@,
            };
            r@ == if socket@.len() == 0 {
                base
            } else {
                DaemonConfigView { socket_path: socket@, ..base }
            }
        }),
{
    let mut config = match loaded {
        Ok(config) => config,
        Err(_) => defaults,
    };
    if !socket.is_empty() {
        config.socket_path = socket.to_owned();
    }
    config
}

/// The line on standard error where the configuration is invalid.
pub fn config_warning(reason: &str) -> (r: String)
    ensures
        r@ == "penguind: invalid daemon config, using defaults: "@ + reason@,
{
    let mut out = "penguind: invalid daemon config, using defaults: ".to_owned();
    out.append(reason);
    out
}

/// Why the daemon could not start, or stopped.
#[derive(Debug, PartialEq, Eq)]
pub enum DaemonBinError {
    /// The state directory could not be created.
    StateDir(String),
    /// The single-instance lock could not be had.
    Lock(String),
    /// Telemetry could not be set up.
    Telemetry(String),
    /// The secret store could not be opened.
    Secrets(String),
    /// The control socket could not be bound.
    Listen(String),
    /// The server failed.
    Serve(String),
}

/// What a [`DaemonBinError`] holds.
pub enum DaemonBinErrorView {
    StateDir(Seq<char>),
    Lock(Seq<char>),
    Telemetry(Seq<char>),
    Secrets(Seq<char>),
    Listen(Seq<char>),
    Serve(Seq<char>),
}

impl View for DaemonBinError {
    type V = DaemonBinErrorView;

    open spec fn view(&self) -> DaemonBinErrorView {
        match self {
            DaemonBinError::StateDir(reason) => DaemonBinErrorView::StateDir(reason@),
            DaemonBinError::Lock(reason) => DaemonBinErrorView::Lock(reason@),
            DaemonBinError::Telemetry(reason) => DaemonBinErrorView::Telemetry(reason@),
            DaemonBinError::Secrets(reason) => DaemonBinErrorView::Secrets(reason@),
            DaemonBinError::Listen(reason) => DaemonBinErrorView::Listen(reason@),
            DaemonBinError::Serve(reason) => DaemonBinErrorView::Serve(reason@),
        }
    }
}

impl DaemonBinErrorView {
    /// The text of the error.
    pub open spec fn message(self) -> Seq<char> {
        match self {
            DaemonBinErrorView::StateDir(reason) => "create state dir: "@ + reason,
            DaemonBinErrorView::Lock(reason) => reason,
            DaemonBinErrorView::Telemetry(reason) => reason,
            DaemonBinErrorView::Secrets(reason) => "init secrets store: "@ + reason,
            DaemonBinErrorView::Listen(reason) => reason,
            DaemonBinErrorView::Serve(reason) => "serve: "@ + reason,
        }
    }
}

/// `head` and `tail`, one behind the other.
fn concat(head: &str, tail: &str) -> (r: String)
    ensures
        r@ == head@ + tail@,
{
    let mut out = head.to_owned();
    out.append(tail);
    out
}

impl DaemonBinError {
    /// The text of the error.
    pub fn message(&self) -> (r: String)
        ensures
            r@ == self@.message(),
    {
        match self {
            DaemonBinError::StateDir(reason) => concat("create state dir: ", reason.as_str()),
            DaemonBinError::Lock(reason) => reason.clone(),
            DaemonBinError::Telemetry(reason) => reason.clone(),
            DaemonBinError::Secrets(reason) => concat("init secrets store: ", reason.as_str()),
            DaemonBinError::Listen(reason) => reason.clone(),
            DaemonBinError::Serve(reason) => concat("serve: ", reason.as_str()),
        }
    }
}

/// The line on standard error for a message.
pub open spec fn exit_line_of(message: Seq<char>) -> Seq<char> {
    "penguind: "@ + message
}

/// The line on standard error, if any, and the exit code of a run.
pub fn exit_report(outcome: &Option<DaemonBinError>) -> (r: (Option<String>, u8))
    ensures
        match outcome {
            None => r.0 is None && r.1 == 0,
            Some(error) => r.0 matches Some(line) && line@ == exit_line_of(error@.message()) && r.1
                == 1,
        },
{
    match outcome {
        None => (None, 0),
        Some(error) => (Some(concat("penguind: ", error.message().as_str())), 1),
    }
}

/// The line on standard error where the async runtime could not be built.
pub fn runtime_failure(reason: &str) -> (r: String)
    ensures
        r@ == exit_line_of("build async runtime: "@ + reason@),
{
    concat("penguind: ", concat("build async runtime: ", reason).as_str())
}

/// The stages of a run, in their order.
#[derive(Debug, Clone, Copy, PartialEq, Eq, Structural)]
pub enum Stage {
    StateDir,
    Lock,
    License,
    Otel,
    Logging,
    Telemetry,
    Histogram,
    Secrets,
    PluginSockets,
    Modules,
    Listen,
    Serve,
    StopModules,
    StopLicense,
    StopOtel,
    RemoveSocket,
    Finished,
}

/// How the last thing to do went.
#[derive(Debug, PartialEq, Eq)]
pub enum DaemonEvent {
    Done,
    Failed(String),
    /// The license client is running: whether OTLP export is on.
    OtelFlag(bool),
    /// OTLP export was tried: whether there is a pipeline.
    OtelStarted(bool),
}

/// What a [`DaemonEvent`] holds.
pub enum DaemonEventView {
    Done,
    Failed(Seq<char>),
    OtelFlag(bool),
    OtelStarted(bool),
}

impl View for DaemonEvent {
    type V = DaemonEventView;

    open spec fn view(&self) -> DaemonEventView {
        match self {
            DaemonEvent::Done => DaemonEventView::Done,
            DaemonEvent::Failed(reason) => DaemonEventView::Failed(reason@),
            DaemonEvent::OtelFlag(on) => DaemonEventView::OtelFlag(*on),
            DaemonEvent::OtelStarted(started) => DaemonEventView::OtelStarted(*started),
        }
    }
}

/// What is to be done.
#[derive(Debug, PartialEq, Eq)]
pub enum DaemonAction {
    /// Create the directory with all missing parents and these permission
    /// bits.
    CreateDir { path: Vec<u8>, mode: u32 },
    /// Take the single-instance lock in the directory, for the whole run.
    AcquireLock { dir: Vec<u8> },
    /// Start the license client with its cache in the directory, and read the
    /// feature flag.
    StartLicense { cache_dir: Vec<u8>, flag: &'static str },
    /// Start OTLP export, if it is on.
    StartOtel { enabled: bool },
    /// Install the subscriber at the log level.
    InstallLogging { level: String },
    /// Set telemetry up at the log level.
    SetUpTelemetry { level: String },
    /// Register the histogram of how long this took, and record it.
    RegisterHistogram { name: &'static str, help: &'static str },
    /// Open the secret store in the directory.
    OpenSecrets { dir: Vec<u8> },
    /// Start the modules that were running before. External ones are loaded
    /// from `plugins_dir`, and have their sockets in `plugin_sockets`.
    RestoreModules { plugins_dir: String, plugin_sockets: Vec<u8> },
    /// Bind the control socket, for the group.
    Listen { socket: String, group: String },
    /// Serve the group and the daemon's own user until a signal comes.
    Serve { group: String },
    /// Stop all modules.
    StopModules,
    /// Stop the license client.
    StopLicense,
    /// Stop OTLP export, within this many seconds.
    StopOtel { budget_secs: u64 },
    /// Remove the control socket, whether or not that succeeds.
    RemoveSocket { socket: String },
    /// Nothing: the run is over.
    Exit,
}

/// What a [`DaemonAction`] holds.
pub enum DaemonActionView {
    CreateDir { path: Seq<u8>, mode: u32 },
    AcquireLock { dir: Seq<u8> },
    StartLicense { cache_dir: Seq<u8>, flag: Seq<char> },
    StartOtel { enabled: bool },
    InstallLogging { level: Seq<char> },
    SetUpTelemetry { level: Seq<char> },
    RegisterHistogram { name: Seq<char>, help: Seq<char> },
    OpenSecrets { dir: Seq<u8> },
    RestoreModules { plugins_dir: Seq<char>, plugin_sockets: Seq<u8> },
    Listen { socket: Seq<char>, group: Seq<char> },
    Serve { group: Seq<char> },
    StopModules,
    StopLicense,
    StopOtel { budget_secs: u64 },
    RemoveSocket { socket: Seq<char> },
    Exit,
}

impl View for DaemonAction {
    type V = DaemonActionView;

    open spec fn view(&self) -> DaemonActionView {
        match self {
            DaemonAction::CreateDir { path, mode } => DaemonActionView::CreateDir {
                path: path@,
                mode: *mode,
            },
            DaemonAction::AcquireLock { dir } => DaemonActionView::AcquireLock { dir: dir@ },
            DaemonAction::StartLicense { cache_dir, flag } => DaemonActionView::StartLicense {
                cache_dir: cache_dir@,
                flag: flag@,
            },
            DaemonAction::StartOtel { enabled } => DaemonActionView::StartOtel {
                enabled: *enabled,
            },
            DaemonAction::InstallLogging { level } => DaemonActionView::InstallLogging {
                level: level@,
            },
            DaemonAction::SetUpTelemetry { level } => DaemonActionView::SetUpTelemetry {
                level: level@,
            },
            DaemonAction::RegisterHistogram { name, help } => DaemonActionView::RegisterHistogram {
                name: name@,
                help: help@,
            },
            DaemonAction::OpenSecrets { dir } => DaemonActionView::OpenSecrets { dir: dir@ },
            DaemonAction::RestoreModules {
                plugins_dir,
                plugin_sockets,
            } => DaemonActionView::RestoreModules {
                plugins_dir: plugins_dir@,
                plugin_sockets: plugin_sockets@,
            },
            DaemonAction::Listen { socket, group } => DaemonActionView::Listen {
                socket: socket@,
                group: group@,
            },
            DaemonAction::Serve { group } => DaemonActionView::Serve { group: group@ },
            DaemonAction::StopModules => DaemonActionView::StopModules,
            DaemonAction::StopLicense => DaemonActionView::StopLicense,
            DaemonAction::StopOtel { budget_secs } => DaemonActionView::StopOtel {
                budget_secs: *budget_secs,
            },
            DaemonAction::RemoveSocket { socket } => DaemonActionView::RemoveSocket { socket: socket@ },
            DaemonAction::Exit => DaemonActionView::Exit,
        }
    }
}

/// A run of the daemon.
pub struct Daemon {
    state_dir: Vec<u8>,
    config: DaemonConfig,
    stage: Stage,
    otel_on: bool,
    outcome: Option<DaemonBinError>,
}

/// What a [`Daemon`] holds: its state directory, its configuration, how far
/// the run has come, whether OTLP export is on or running, and what went
/// wrong.
pub struct DaemonView {
    pub state_dir: Seq<u8>,
    pub config: DaemonConfigView,
    pub stage: Stage,
    pub otel_on: bool,
    pub outcome: Option<DaemonBinErrorView>,
}

/// What an optional error holds.
pub open spec fn outcome_view(outcome: Option<DaemonBinError>) -> Option<DaemonBinErrorView> {
    match outcome {
        Some(error) => Some(error@),
        None => None,
    }
}

impl View for Daemon {
    type V = DaemonView;

    closed spec fn view(&self) -> DaemonView {
        DaemonView {
            state_dir: self.state_dir@,
            config: self.config@,
            stage: self.stage,
            otel_on: self.otel_on,
            outcome: outcome_view(self.outcome),
        }
    }
}

/// The stage after `stage`.
pub open spec fn stage_after(stage: Stage) -> Stage {
    match stage {
        Stage::StateDir => Stage::Lock,
        Stage::Lock => Stage::License,
        Stage::License => Stage::Otel,
        Stage::Otel => Stage::Logging,
        Stage::Logging => Stage::Telemetry,
        Stage::Telemetry => Stage::Histogram,
        Stage::Histogram => Stage::Secrets,
        Stage::Secrets => Stage::PluginSockets,
        Stage::PluginSockets => Stage::Modules,
        Stage::Modules => Stage::Listen,
        Stage::Listen => Stage::Serve,
        Stage::Serve => Stage::StopModules,
        Stage::StopModules => Stage::StopLicense,
        Stage::StopLicense => Stage::StopOtel,
        Stage::StopOtel => Stage::RemoveSocket,
        Stage::RemoveSocket => Stage::Finished,
        Stage::Finished => Stage::Finished,
    }
}

/// The error of a failure in `stage`, where it ends the start.
pub open spec fn fatal_error(stage: Stage, reason: Seq<char>) -> Option<DaemonBinErrorView> {
    match stage {
        Stage::StateDir => Some(DaemonBinErrorView::StateDir(reason)),
        Stage::Lock => Some(DaemonBinErrorView::Lock(reason)),
        Stage::Telemetry => Some(DaemonBinErrorView::Telemetry(reason)),
        Stage::Histogram => Some(DaemonBinErrorView::Telemetry(reason)),
        Stage::Secrets => Some(DaemonBinErrorView::Secrets(reason)),
        Stage::Listen => Some(DaemonBinErrorView::Listen(reason)),
        _ => None,
    }
}

impl DaemonView {
    /// A run at its beginning.
    pub open spec fn start(state_dir: Seq<u8>, config: DaemonConfigView) -> DaemonView {
        DaemonView { state_dir, config, stage: Stage::StateDir, otel_on: false, outcome: None }
    }

    /// What is to be done.
    pub open spec fn action(self) -> DaemonActionView {
        match self.stage {
            Stage::StateDir => DaemonActionView::CreateDir {
                path: self.state_dir,
                mode: STATE_DIR_MODE,
            },
            Stage::Lock => DaemonActionView::AcquireLock { dir: self.state_dir },
            Stage::License => DaemonActionView::StartLicense {
                cache_dir: joined(self.state_dir, encode_utf8("license"@)),
                flag: OTEL_TELEMETRY_FLAG@,
            },
            Stage::Otel => DaemonActionView::StartOtel { enabled: self.otel_on },
            Stage::Logging => DaemonActionView::InstallLogging { level: self.config.log_level },
            Stage::Telemetry => DaemonActionView::SetUpTelemetry { level: self.config.log_level },
            Stage::Histogram => DaemonActionView::RegisterHistogram {
                name: INIT_HISTOGRAM_NAME@,
                help: INIT_HISTOGRAM_HELP@,
            },
            Stage::Secrets => DaemonActionView::OpenSecrets {
                dir: joined(self.state_dir, encode_utf8("secrets"@)),
            },
            Stage::PluginSockets => DaemonActionView::CreateDir {
                path: joined(self.state_dir, encode_utf8("plugin-sockets"@)),
                mode: STATE_DIR_MODE,
            },
            Stage::Modules => DaemonActionView::RestoreModules {
                plugins_dir: self.config.plugins_dir,
                plugin_sockets: joined(self.state_dir, encode_utf8("plugin-sockets"@)),
            },
            Stage::Listen => DaemonActionView::Listen {
                socket: self.config.socket_path,
                group: self.config.group,
            },
            Stage::Serve => DaemonActionView::Serve { group: self.config.group },
            Stage::StopModules => DaemonActionView::StopModules,
            Stage::StopLicense => DaemonActionView::StopLicense,
            Stage::StopOtel => DaemonActionView::StopOtel {
                budget_secs: OTEL_SHUTDOWN_BUDGET_SECS,
            },
            Stage::RemoveSocket => DaemonActionView::RemoveSocket {
                socket: self.config.socket_path,
            },
            Stage::Finished => DaemonActionView::Exit,
        }
    }

    /// The run after what was to be done went as `event` says.
    pub open spec fn next(self, event: DaemonEventView) -> DaemonView {
        match (self.stage, event) {
            (Stage::License, DaemonEventView::OtelFlag(on)) => DaemonView {
                stage: Stage::Otel,
                otel_on: on,
                ..self
            },
            (Stage::Otel, DaemonEventView::OtelStarted(started)) => DaemonView {
                stage: Stage::Logging,
                otel_on: self.otel_on && started,
                ..self
            },
            (Stage::Otel, _) => DaemonView { stage: Stage::Logging, otel_on: false, ..self },
            (Stage::Serve, DaemonEventView::Failed(reason)) => DaemonView {
                stage: Stage::StopModules,
                outcome: Some(DaemonBinErrorView::Serve(reason)),
                ..self
            },
            (Stage::StopLicense, _) => DaemonView {
                stage: if self.otel_on {
                    Stage::StopOtel
                } else {
                    Stage::RemoveSocket
                },
                ..self
            },
            (stage, DaemonEventView::Failed(reason)) => match fatal_error(stage, reason) {
                Some(error) => DaemonView { stage: Stage::Finished, outcome: Some(error), ..self },
                None => DaemonView { stage: stage_after(stage), ..self },
            },
            (stage, _) => DaemonView { stage: stage_after(stage), ..self },
        }
    }
}

/// The stage after `stage`.
fn following(stage: Stage) -> (r: Stage)
    ensures
        r == stage_after(stage),
{
    match stage {
        Stage::StateDir => Stage::Lock,
        Stage::Lock => Stage::License,
        Stage::License => Stage::Otel,
        Stage::Otel => Stage::Logging,
        Stage::Logging => Stage::Telemetry,
        Stage::Telemetry => Stage::Histogram,
        Stage::Histogram => Stage::Secrets,
        Stage::Secrets => Stage::PluginSockets,
        Stage::PluginSockets => Stage::Modules,
        Stage::Modules => Stage::Listen,
        Stage::Listen => Stage::Serve,
        Stage::Serve => Stage::StopModules,
        Stage::StopModules => Stage::StopLicense,
        Stage::StopLicense => Stage::StopOtel,
        Stage::StopOtel => Stage::RemoveSocket,
        Stage::RemoveSocket => Stage::Finished,
        Stage::Finished => Stage::Finished,
    }
}

/// The error of a failure in `stage`, where it ends the start.
fn fatal(stage: Stage, reason: String) -> (r: Option<DaemonBinError>)
    ensures
        outcome_view(r) == fatal_error(stage, reason@),
{
    match stage {
        Stage::StateDir => Some(DaemonBinError::StateDir(reason)),
        Stage::Lock => Some(DaemonBinError::Lock(reason)),
        Stage::Telemetry => Some(DaemonBinError::Telemetry(reason)),
        Stage::Histogram => Some(DaemonBinError::Telemetry(reason)),
        Stage::Secrets => Some(DaemonBinError::Secrets(reason)),
        Stage::Listen => Some(DaemonBinError::Listen(reason)),
        _ => None,
    }
}

/// A copy of `bytes`.
fn copy(bytes: &Vec<u8>) -> (r: Vec<u8>)
    ensures
        r@ == bytes@,
{
    let out = bytes.clone();
    assert(out@ =~= bytes@);
    out
}

impl Daemon {
    /// Begins a run with the state directory `state_dir`.
    pub fn start(state_dir: Vec<u8>, config: DaemonConfig) -> (r: Daemon)
        ensures
            r@ == DaemonView::start(state_dir@, config@),
    {
        Daemon { state_dir, config, stage: Stage::StateDir, otel_on: false, outcome: None }
    }

    /// What is to be done next.
    pub fn action(&self) -> (r: DaemonAction)
        ensures
            r@ == self@.action(),
    {
        match self.stage {
            Stage::StateDir => DaemonAction::CreateDir {
                path: copy(&self.state_dir),
                mode: STATE_DIR_MODE,
            },
            Stage::Lock => DaemonAction::AcquireLock { dir: copy(&self.state_dir) },
            Stage::License => DaemonAction::StartLicense {
                cache_dir: join(self.state_dir.as_slice(), "license".as_bytes()),
                flag: OTEL_TELEMETRY_FLAG,
            },
            Stage::Otel => DaemonAction::StartOtel { enabled: self.otel_on },
            Stage::Logging => DaemonAction::InstallLogging {
                level: self.config.log_level.clone(),
            },
            Stage::Telemetry => DaemonAction::SetUpTelemetry {
                level: self.config.log_level.clone(),
            },
            Stage::Histogram => DaemonAction::RegisterHistogram {
                name: INIT_HISTOGRAM_NAME,
                help: INIT_HISTOGRAM_HELP,
            },
            Stage::Secrets => DaemonAction::OpenSecrets {
                dir: join(self.state_dir.as_slice(), "secrets".as_bytes()),
            },
            Stage::PluginSockets => DaemonAction::CreateDir {
                path: join(self.state_dir.as_slice(), "plugin-sockets".as_bytes()),
                mode: STATE_DIR_MODE,
            },
            Stage::Modules => DaemonAction::RestoreModules {
                plugins_dir: self.config.plugins_dir.clone(),
                plugin_sockets: join(self.state_dir.as_slice(), "plugin-sockets".as_bytes()),
            },
            Stage::Listen => DaemonAction::Listen {
                socket: self.config.socket_path.clone(),
                group: self.config.group.clone(),
            },
            Stage::Serve => DaemonAction::Serve { group: self.config.group.clone() },
            Stage::StopModules => DaemonAction::StopModules,
            Stage::StopLicense => DaemonAction::StopLicense,
            Stage::StopOtel => DaemonAction::StopOtel { budget_secs: OTEL_SHUTDOWN_BUDGET_SECS },
            Stage::RemoveSocket => DaemonAction::RemoveSocket {
                socket: self.config.socket_path.clone(),
            },
            Stage::Finished => DaemonAction::Exit,
        }
    }

    /// Takes note of how the last thing to do went.
    pub fn next(self, event: DaemonEvent) -> (r: Daemon)
        ensures
            r@ == self@.next(event@),
    {
        let mut daemon = self;
        let stage = daemon.stage;
        match (stage, event) {
            (Stage::License, DaemonEvent::OtelFlag(on)) => {
                daemon.stage = Stage::Otel;
                daemon.otel_on = on;
            },
            (Stage::Otel, DaemonEvent::OtelStarted(started)) => {
                daemon.stage = Stage::Logging;
                daemon.otel_on = daemon.otel_on && started;
            },
            (Stage::Otel, _) => {
                daemon.stage = Stage::Logging;
                daemon.otel_on = false;
            },
            (Stage::Serve, DaemonEvent::Failed(reason)) => {
                daemon.stage = Stage::StopModules;
                daemon.outcome = Some(DaemonBinError::Serve(reason));
            },
            (Stage::StopLicense, _) => {
                daemon.stage =
                if daemon.otel_on {
                    Stage::StopOtel
                } else {
                    Stage::RemoveSocket
                };
            },
            (_, DaemonEvent::Failed(reason)) => {
                let error = fatal(stage, reason);
                if error.is_some() {
                    daemon.stage = Stage::Finished;
                    daemon.outcome = error;
                } else {
                    daemon.stage = following(stage);
                }
            },
            (_, _) => {
                daemon.stage = following(stage);
            },
        }
        daemon
    }

    /// What went wrong.
    pub fn into_outcome(self) -> (r: Option<DaemonBinError>)
        ensures
            outcome_view(r) == self@.outcome,
    {
        self.outcome
    }

    /// What went wrong so far.
    pub fn outcome(&self) -> (r: &Option<DaemonBinError>)
        ensures
            outcome_view(*r) == self@.outcome,
    {
        &self.outcome
    }
}

/// The place of a stage in the order of stages.
pub open spec fn place(stage: Stage) -> nat {
    match stage {
        Stage::StateDir => 0,
        Stage::Lock => 1,
        Stage::License => 2,
        Stage::Otel => 3,
        Stage::Logging => 4,
        Stage::Telemetry => 5,
        Stage::Histogram => 6,
        Stage::Secrets => 7,
        Stage::PluginSockets => 8,
        Stage::Modules => 9,
        Stage::Listen => 10,
        Stage::Serve => 11,
        Stage::StopModules => 12,
        Stage::StopLicense => 13,
        Stage::StopOtel => 14,
        Stage::RemoveSocket => 15,
        Stage::Finished => 16,
    }
}

/// The run after `events`.
pub open spec fn run(daemon: DaemonView, events: Seq<DaemonEventView>) -> DaemonView
    decreases events.len(),
{
    if events.len() == 0 {
        daemon
    } else {
        run(daemon, events.drop_last()).next(events.last())
    }
}

/// Each stage comes at most once, and in its place: a run moves forward with
/// every event until it is finished, so it is finished after as many events as
/// there are stages before.
pub proof fn law_run_moves_forward(daemon: DaemonView, events: Seq<DaemonEventView>)
    ensures
        daemon.stage != Stage::Finished ==> forall|event: DaemonEventView| #[trigger]
            place(daemon.next(event).stage) > place(daemon.stage),
        place(run(daemon, events).stage) >= place(daemon.stage) + events.len() || run(
            daemon,
            events,
        ).stage == Stage::Finished,
        events.len() >= 16 ==> run(daemon, events).stage == Stage::Finished,
    decreases events.len(),
{
    if events.len() > 0 {
        law_run_moves_forward(daemon, events.drop_last());
    }
}

/// A failure that ends the start leaves nothing to do but to exit with it.
pub proof fn law_fatal_failures_end_the_start(daemon: DaemonView, reason: Seq<char>)
    requires
        fatal_error(daemon.stage, reason) is Some,
    ensures
        daemon.next(DaemonEventView::Failed(reason)).action() == DaemonActionView::Exit,
        daemon.next(DaemonEventView::Failed(reason)).outcome == fatal_error(daemon.stage, reason),
{
}

/// The failures of the stages before the control socket is bound that do not
/// end the start do not show in the outcome of the run.
pub proof fn law_other_failures_are_survived(daemon: DaemonView, reason: Seq<char>)
    requires
        place(daemon.stage) < place(Stage::Serve),
        fatal_error(daemon.stage, reason) is None,
    ensures
        daemon.next(DaemonEventView::Failed(reason)).stage == stage_after(daemon.stage),
        daemon.next(DaemonEventView::Failed(reason)).outcome == daemon.outcome,
{
}

/// OTLP export never stops the daemon from starting, and it is started only
/// where the feature flag is on.
pub proof fn law_otel_is_optional(daemon: DaemonView, flag: DaemonEventView, event: DaemonEventView)
    requires
        daemon.stage == Stage::License,
        !daemon.otel_on,
    ensures
        daemon.next(flag).action() == (DaemonActionView::StartOtel {
            enabled: flag == DaemonEventView::OtelFlag(true),
        }),
        daemon.next(flag).next(event).stage == Stage::Logging,
        daemon.next(flag).next(event).outcome == daemon.outcome,
        daemon.next(flag).next(event).otel_on <==> flag == DaemonEventView::OtelFlag(true) && event
            == DaemonEventView::OtelStarted(true),
{
}

/// However serving ends, and whatever fails then: the modules are stopped, the
/// license client is, OTLP export is if it runs, the control socket is
/// removed, and the outcome is that of serving.
pub proof fn law_stop_cleans_up(
    daemon: DaemonView,
    served: DaemonEventView,
    modules: DaemonEventView,
    license: DaemonEventView,
    otel: DaemonEventView,
    socket: DaemonEventView,
)
    requires
        daemon.stage == Stage::Serve,
        daemon.outcome is None,
    ensures
        ({
            let stopping = daemon.next(served);
            let unloaded = stopping.next(modules);
            let released = unloaded.next(license);
            let flushed = if daemon.otel_on {
                released.next(otel)
            } else {
                released
            };
            let finished = flushed.next(socket);
            &&& stopping.action() == DaemonActionView::StopModules
            &&& unloaded.action() == DaemonActionView::StopLicense
            &&& daemon.otel_on ==> released.action() == (DaemonActionView::StopOtel {
                budget_secs: 8,
            })
            &&& flushed.action() == (DaemonActionView::RemoveSocket {
                socket: daemon.config.socket_path,
            })
            &&& finished.action() == DaemonActionView::Exit
            &&& finished.outcome == match served {
                DaemonEventView::Failed(reason) => Some(DaemonBinErrorView::Serve(reason)),
                _ => None,
            }
        }),
{
}

/// Whether `event` is no failure.
pub open spec fn went_well(event: DaemonEventView) -> bool {
    event !is Failed
}

proof fn lemma_run_step(daemon: DaemonView, events: Seq<DaemonEventView>, n: int)
    requires
        0 <= n < events.len(),
    ensures
        run(daemon, events.take(n + 1)) == run(daemon, events.take(n)).next(events[n]),
{
    assert(events.take(n + 1).drop_last() =~= events.take(n));
    assert(events.take(n + 1).last() == events[n]);
}

/// A start without failures performs every step, in this order, whether OTLP
/// export is on or off: the state directory, the lock, the license client, OTLP
/// export, logging, telemetry, its histogram, the secret store, the directory
/// of plugin sockets, the modules, the control socket, and only then serving.
/// `events` are the outcomes of the eleven steps before serving.
pub proof fn law_start_performs_every_step(
    state_dir: Seq<u8>,
    config: DaemonConfigView,
    events: Seq<DaemonEventView>,
)
    requires
        events.len() == 11,
        forall|i: int| 0 <= i < 11 ==> went_well(#[trigger] events[i]),
    ensures
        ({
            let step = |n: int| run(DaemonView::start(state_dir, config), events.take(n)).action();
            &&& step(0) == (DaemonActionView::CreateDir { path: state_dir, mode: 0o700 })
            &&& step(1) == (DaemonActionView::AcquireLock { dir: state_dir })
            &&& step(2) == (DaemonActionView::StartLicense {
                cache_dir: joined(state_dir, encode_utf8("license"@)),
                flag: "penguind.otel-telemetry"@,
            })
            &&& step(3) == (DaemonActionView::StartOtel {
                enabled: events[2] == DaemonEventView::OtelFlag(true),
            })
            &&& step(4) == (DaemonActionView::InstallLogging { level: config.log_level })
            &&& step(5) == (DaemonActionView::SetUpTelemetry { level: config.log_level })
            &&& step(6) == (DaemonActionView::RegisterHistogram {
                name: "penguind_telemetry_init_duration_seconds"@,
                help: "Time to initialize the daemon's logging, metrics, and (if enabled) OTel pipeline."@,
            })
            &&& step(7) == (DaemonActionView::OpenSecrets {
                dir: joined(state_dir, encode_utf8("secrets"@)),
            })
            &&& step(8) == (DaemonActionView::CreateDir {
                path: joined(state_dir, encode_utf8("plugin-sockets"@)),
                mode: 0o700,
            })
            &&& step(9) == (DaemonActionView::RestoreModules {
                plugins_dir: config.plugins_dir,
                plugin_sockets: joined(state_dir, encode_utf8("plugin-sockets"@)),
            })
            &&& step(10) == (DaemonActionView::Listen {
                socket: config.socket_path,
                group: config.group,
            })
            &&& step(11) == (DaemonActionView::Serve { group: config.group })
        }),
{
    let start = DaemonView::start(state_dir, config);
    assert(run(start, events.take(0)) == start);
    lemma_run_step(start, events, 0);
    lemma_run_step(start, events, 1);
    lemma_run_step(start, events, 2);
    lemma_run_step(start, events, 3);
    lemma_run_step(start, events, 4);
    lemma_run_step(start, events, 5);
    lemma_run_step(start, events, 6);
    lemma_run_step(start, events, 7);
    lemma_run_step(start, events, 8);
    lemma_run_step(start, events, 9);
    lemma_run_step(start, events, 10);
    assert(run(start, events.take(1)).stage == Stage::Lock);
    assert(run(start, events.take(2)).stage == Stage::License);
    assert(run(start, events.take(3)).stage == Stage::Otel);
    assert(run(start, events.take(4)).stage == Stage::Logging);
    assert(run(start, events.take(5)).stage == Stage::Telemetry);
    assert(run(start, events.take(6)).stage == Stage::Histogram);
    assert(run(start, events.take(7)).stage == Stage::Secrets);
    assert(run(start, events.take(8)).stage == Stage::PluginSockets);
    assert(run(start, events.take(9)).stage == Stage::Modules);
    assert(run(start, events.take(10)).stage == Stage::Listen);
    assert(run(start, events.take(11)).stage == Stage::Serve);
}

/// Before serving, each outcome that does not end the start leads to the very
/// next stage, whatever else the run holds; the configuration and the
/// directory stay as they are.
pub proof fn law_no_stage_is_left_out(daemon: DaemonView, event: DaemonEventView)
    requires
        place(daemon.stage) < place(Stage::Serve),
    ensures
        daemon.next(event).stage == Stage::Finished || place(daemon.next(event).stage) == place(
            daemon.stage,
        ) + 1,
        daemon.next(event).stage == Stage::Finished ==> event is Failed,
        daemon.next(event).state_dir == daemon.state_dir,
        daemon.next(event).config == daemon.config,
{
}

/// A run that is to serve was to bind the control socket just before, and that
/// came out well.
pub proof fn law_serving_follows_binding(daemon: DaemonView, event: DaemonEventView)
    requires
        daemon.next(event).action() is Serve,
    ensures
        daemon.action() == (DaemonActionView::Listen {
            socket: daemon.config.socket_path,
            group: daemon.config.group,
        }),
        event !is Failed,
{
}

/// What a failure leads to, by what was to be done. The state directory, the
/// lock, telemetry, its histogram, the secret store and the control socket are
/// needed: without one of them the run is over, with that error. A failure to
/// serve is kept for the end. Everything else goes on without it.
pub proof fn law_failures_by_step(daemon: DaemonView, reason: Seq<char>)
    ensures
        ({
            let next = daemon.next(DaemonEventView::Failed(reason));
            let ends_with = |error: DaemonBinErrorView|
                next.action() == DaemonActionView::Exit && next.outcome == Some(error);
            match daemon.action() {
                DaemonActionView::CreateDir { .. } => if daemon.stage == Stage::StateDir {
                    ends_with(DaemonBinErrorView::StateDir(reason))
                } else {
                    next.outcome == daemon.outcome && next.action() is RestoreModules
                },
                DaemonActionView::AcquireLock { .. } => ends_with(DaemonBinErrorView::Lock(reason)),
                DaemonActionView::SetUpTelemetry { .. } => ends_with(
                    DaemonBinErrorView::Telemetry(reason),
                ),
                DaemonActionView::RegisterHistogram { .. } => ends_with(
                    DaemonBinErrorView::Telemetry(reason),
                ),
                DaemonActionView::OpenSecrets { .. } => ends_with(
                    DaemonBinErrorView::Secrets(reason),
                ),
                DaemonActionView::Listen { .. } => ends_with(DaemonBinErrorView::Listen(reason)),
                DaemonActionView::Serve { .. } => next.outcome == Some(
                    DaemonBinErrorView::Serve(reason),
                ) && next.action() == DaemonActionView::StopModules,
                DaemonActionView::StartLicense { .. } => next.outcome == daemon.outcome
                    && next.action() is StartOtel,
                DaemonActionView::StartOtel { .. } => next.outcome == daemon.outcome
                    && next.action() is InstallLogging,
                DaemonActionView::InstallLogging { .. } => next.outcome == daemon.outcome
                    && next.action() is SetUpTelemetry,
                DaemonActionView::RestoreModules { .. } => next.outcome == daemon.outcome
                    && next.action() is Listen,
                _ => next.outcome == daemon.outcome,
            }
        }),
{
}

/// Nothing but a failure changes what went wrong.
pub proof fn law_only_failures_are_errors(daemon: DaemonView, event: DaemonEventView)
    requires
        event !is Failed,
    ensures
        daemon.next(event).outcome == daemon.outcome,
{
}

/// What each error says: the reason, behind what failed where the reason does
/// not say that itself.
pub proof fn law_error_texts(reason: Seq<char>)
    ensures
        DaemonBinErrorView::StateDir(reason).message() == "create state dir: "@ + reason,
        DaemonBinErrorView::Lock(reason).message() == reason,
        DaemonBinErrorView::Telemetry(reason).message() == reason,
        DaemonBinErrorView::Secrets(reason).message() == "init secrets store: "@ + reason,
        DaemonBinErrorView::Listen(reason).message() == reason,
        DaemonBinErrorView::Serve(reason).message() == "serve: "@ + reason,
        exit_line_of(reason) == "penguind: "@ + reason,
{
}

/// What a run was started with stays as it is. Whether OTLP export is on is
/// decided by the feature flag and by whether it could be started, and by
/// nothing that comes before or after.
pub proof fn law_run_keeps_what_it_knows(daemon: DaemonView, event: DaemonEventView)
    ensures
        ({
            let next = daemon.next(event);
            &&& next.state_dir == daemon.state_dir && next.config == daemon.config
            &&& match daemon.action() {
                DaemonActionView::StartLicense { .. } => match event {
                    DaemonEventView::OtelFlag(on) => next.otel_on == on,
                    _ => next.otel_on == daemon.otel_on,
                },
                DaemonActionView::StartOtel { .. } => next.otel_on == (daemon.otel_on && event
                    == DaemonEventView::OtelStarted(true)),
                _ => next.otel_on == daemon.otel_on,
            }
            &&& daemon.action() is Exit ==> next == daemon
        }),
{
}

/// A run that is over was ended by a failure that ends the start, or by the
/// removal of the control socket.
pub proof fn law_ends_of_runs(daemon: DaemonView, event: DaemonEventView)
    requires
        daemon.action() !is Exit,
        daemon.next(event).action() is Exit,
    ensures
        daemon.action() is RemoveSocket || (event is Failed && {
            ||| daemon.action() == (DaemonActionView::CreateDir {
                path: daemon.state_dir,
                mode: 0o700,
            })
            ||| daemon.action() is AcquireLock
            ||| daemon.action() is SetUpTelemetry
            ||| daemon.action() is RegisterHistogram
            ||| daemon.action() is OpenSecrets
            ||| daemon.action() is Listen
        }),
{
}

/// A configuration is seen by each of its settings, and what went wrong by its
/// kind and its words.
pub proof fn law_configuration_is_seen_whole(config: DaemonConfig, error: DaemonBinError)
    ensures
        config@.socket_path == config.socket_path@,
        config@.group == config.group@,
        config@.log_level == config.log_level@,
        config@.plugins_dir == config.plugins_dir@,
        outcome_view(Some(error)) == Some(error@),
        outcome_view(None) is None,
        match error {
            DaemonBinError::StateDir(reason) => error@ == DaemonBinErrorView::StateDir(reason@),
            DaemonBinError::Lock(reason) => error@ == DaemonBinErrorView::Lock(reason@),
            DaemonBinError::Telemetry(reason) => error@ == DaemonBinErrorView::Telemetry(reason@),
            DaemonBinError::Secrets(reason) => error@ == DaemonBinErrorView::Secrets(reason@),
            DaemonBinError::Listen(reason) => error@ == DaemonBinErrorView::Listen(reason@),
            DaemonBinError::Serve(reason) => error@ == DaemonBinErrorView::Serve(reason@),
        },
{
}

/// A report is seen by what it says, and an action by what it holds.
pub proof fn law_actions_are_seen_whole(event: DaemonEvent, action: DaemonAction)
    ensures
        match event {
            DaemonEvent::Done => event@ == DaemonEventView::Done,
            DaemonEvent::Failed(reason) => event@ == DaemonEventView::Failed(reason@),
            DaemonEvent::OtelFlag(on) => event@ == DaemonEventView::OtelFlag(on),
            DaemonEvent::OtelStarted(started) => event@ == DaemonEventView::OtelStarted(started),
        },
        match (action, action@) {
            (
                DaemonAction::CreateDir { path, mode },
                DaemonActionView::CreateDir { path: p, mode: m },
            ) => p == path@ && m == mode,
            (DaemonAction::AcquireLock { dir }, DaemonActionView::AcquireLock { dir: d }) => d
                == dir@,
            (
                DaemonAction::StartLicense { cache_dir, flag },
                DaemonActionView::StartLicense { cache_dir: d, flag: f },
            ) => d == cache_dir@ && f == flag@,
            (DaemonAction::StartOtel { enabled }, DaemonActionView::StartOtel { enabled: e }) => e
                == enabled,
            (
                DaemonAction::InstallLogging { level },
                DaemonActionView::InstallLogging { level: l },
            ) => l == level@,
            (
                DaemonAction::SetUpTelemetry { level },
                DaemonActionView::SetUpTelemetry { level: l },
            ) => l == level@,
            (
                DaemonAction::RegisterHistogram { name, help },
                DaemonActionView::RegisterHistogram { name: n, help: h },
            ) => n == name@ && h == help@,
            (DaemonAction::OpenSecrets { dir }, DaemonActionView::OpenSecrets { dir: d }) => d
                == dir@,
            (
                DaemonAction::RestoreModules { plugins_dir, plugin_sockets },
                DaemonActionView::RestoreModules { plugins_dir: d, plugin_sockets: s },
            ) => d == plugins_dir@ && s == plugin_sockets@,
            (
                DaemonAction::Listen { socket, group },
                DaemonActionView::Listen { socket: s, group: g },
            ) => s == socket@ && g == group@,
            (DaemonAction::Serve { group }, DaemonActionView::Serve { group: g }) => g == group@,
            (DaemonAction::StopModules, DaemonActionView::StopModules) => true,
            (DaemonAction::StopLicense, DaemonActionView::StopLicense) => true,
            (
                DaemonAction::StopOtel { budget_secs },
                DaemonActionView::StopOtel { budget_secs: b },
            ) => b == budget_secs,
            (
                DaemonAction::RemoveSocket { socket },
                DaemonActionView::RemoveSocket { socket: s },
            ) => s == socket@,
            (DaemonAction::Exit, DaemonActionView::Exit) => true,
            _ => false,
        },
{
}

} // verus!
