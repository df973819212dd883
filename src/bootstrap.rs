use vstd::prelude::*;

use crate::verbosity::VerbosityLevel;
use crate::version::{get_version_str, version_text};

verus! {

/// The log file, relative to the working directory; created or truncated on
/// every start.
pub const LOGGING_PATH: &'static str = "image-analytics-bridge.log";

/// The application's name, as the start-up record gives it.
pub const APP_NAME: &'static str = "Image Analytics Bridge";

/// Where a sink writes its records.
#[derive(Clone, Copy, Debug, PartialEq, Eq, Structural)]
pub enum Destination {
    Console,
    File,
}

/// One sink to build: its destination and its threshold (the format is the
/// default one for both).
#[derive(Clone, Copy, Debug, PartialEq, Eq, Structural)]
pub struct SinkConfig {
    pub destination: Destination,
    pub level: VerbosityLevel,
}

/// The two sinks of a run, console first, both at the resolved level.
pub fn sink_configs(level: VerbosityLevel) -> (r: (SinkConfig, SinkConfig))
    ensures
        r.0 == (SinkConfig { destination: Destination::Console, level }),
        r.1 == (SinkConfig { destination: Destination::File, level }),
{
    (
        SinkConfig { destination: Destination::Console, level },
        SinkConfig { destination: Destination::File, level },
    )
}

/// What came of building the console sink. Its absence (no terminal
/// attached) is expected and not an error.
#[derive(Clone, Copy, Debug, PartialEq, Eq, Structural)]
pub enum ConsoleSink {
    Ready,
    NoTerminal,
}

/// Which sinks the installed logger routes records to.
#[derive(Clone, Copy, Debug, PartialEq, Eq, Structural)]
pub enum InstallMode {
    /// Console and file.
    Combined,
    /// The file alone.
    FileOnly,
}

/// A failure that ends the start-up.
#[derive(Clone, Copy, Debug, PartialEq, Eq, Structural)]
pub enum BootError {
    /// The log file could not be created.
    LogFileCreation,
    /// The file sink could not be built on the log file.
    FileSinkConstruction,
    /// The logger could not be installed, on the given path.
    Installation(InstallMode),
}

/// Where the start-up stands; each stage but the last two names the next
/// piece of outside work.
#[derive(Clone, Copy, Debug, PartialEq, Eq, Structural)]
pub enum Stage {
    /// Create (or truncate) the log file at `LOGGING_PATH`.
    CreateLogFile,
    /// Try to build the console sink.
    BuildConsoleSink,
    /// Build the file sink; the logger will then be installed in this mode.
    BuildFileSink(InstallMode),
    /// Install the logger in this mode.
    Install(InstallMode),
    /// The logger is installed: emit the start-up record.
    Announce(InstallMode),
    /// The start-up failed.
    Aborted(BootError),
}

/// The outcome of the outside work that a stage asked for.
#[derive(Clone, Copy, Debug, PartialEq, Eq, Structural)]
pub enum Event {
    LogFile(bool),
    Console(ConsoleSink),
    FileSink(bool),
    Installed(bool),
}

/// The installation mode that a console outcome leads to.
pub open spec fn mode_for(console: ConsoleSink) -> InstallMode {
    match console {
        ConsoleSink::Ready => InstallMode::Combined,
        ConsoleSink::NoTerminal => InstallMode::FileOnly,
    }
}

/// Both sinks when the console sink was built, else the file alone.
pub fn install_mode(console: ConsoleSink) -> (mode: InstallMode)
    ensures
        mode == mode_for(console),
{
    match console {
        ConsoleSink::Ready => InstallMode::Combined,
        ConsoleSink::NoTerminal => InstallMode::FileOnly,
    }
}

impl BootError {
    /// The message that goes to standard error before the process ends: it
    /// names the log file, or the installation path that was taken.
    pub open spec fn diagnostic_text(self) -> Seq<char> {
        match self {
            BootError::LogFileCreation => "Could not create the logfile "@ + LOGGING_PATH@
                + ". Terminating program!"@,
            BootError::FileSinkConstruction => "Could not create the file logger on "@
                + LOGGING_PATH@ + ". Terminating program!"@,
            BootError::Installation(InstallMode::Combined) =>
                "Could not create a combined logger. Terminating program!"@,
            BootError::Installation(InstallMode::FileOnly) =>
                "Could not create a 'writer only' logger. Terminating program!"@,
        }
    }

    /// The human-readable diagnostic of this failure.
    pub fn diagnostic(&self) -> (r: String)
        ensures
            r@ == self.diagnostic_text(),
    {
        match self {
            BootError::LogFileCreation => {
                let mut out = String::from_str("Could not create the logfile ");
                out.append(LOGGING_PATH);
                out.append(". Terminating program!");
                out
            },
            BootError::FileSinkConstruction => {
                let mut out = String::from_str("Could not create the file logger on ");
                out.append(LOGGING_PATH);
                out.append(". Terminating program!");
                out
            },
            BootError::Installation(InstallMode::Combined) => String::from_str(
                "Could not create a combined logger. Terminating program!",
            ),
            BootError::Installation(InstallMode::FileOnly) => String::from_str(
                "Could not create a 'writer only' logger. Terminating program!",
            ),
        }
    }
}

/// The two installation paths give different diagnostics, and a failure on
/// the log file names its path.
pub proof fn lemma_diagnostics_distinguish_paths()
    ensures
        BootError::Installation(InstallMode::Combined).diagnostic_text()
            != BootError::Installation(InstallMode::FileOnly).diagnostic_text(),
        exists|pre: Seq<char>, post: Seq<char>|
            BootError::LogFileCreation.diagnostic_text() == pre + LOGGING_PATH@ + post,
        exists|pre: Seq<char>, post: Seq<char>|
            BootError::FileSinkConstruction.diagnostic_text() == pre + LOGGING_PATH@ + post,
{
    reveal_strlit("Could not create a combined logger. Terminating program!");
    reveal_strlit("Could not create a 'writer only' logger. Terminating program!");
    let a = BootError::Installation(InstallMode::Combined).diagnostic_text();
    let b = BootError::Installation(InstallMode::FileOnly).diagnostic_text();
    assert(a[19] != b[19]);
    let p1 = "Could not create the logfile "@;
    let p2 = "Could not create the file logger on "@;
    let q = ". Terminating program!"@;
    assert(BootError::LogFileCreation.diagnostic_text() == p1 + LOGGING_PATH@ + q);
    assert(BootError::FileSinkConstruction.diagnostic_text() == p2 + LOGGING_PATH@ + q);
}

/// The start-up record: the application's name and its version.
pub open spec fn startup_text(version: Seq<char>) -> Seq<char> {
    APP_NAME@ + " "@ + version + " started"@
}

/// The message of the start-up record for the given version string.
pub fn startup_message(version: &str) -> (r: String)
    ensures
        r@ == startup_text(version@),
{
    let mut out = String::from_str(APP_NAME);
    out.append(" ");
    out.append(version);
    out.append(" started");
    out
}

/// The start-up record of the given version.
pub fn announcement(major: u64, minor: u64, patch: u64, pre: &str) -> (r: String)
    ensures
        r@ == startup_text(version_text(major as nat, minor as nat, patch as nat, pre@)),
{
    let version = get_version_str(major, minor, patch, pre);
    startup_message(version.as_str())
}

impl Stage {
    /// The stage after `event`. An event that does not answer the stage's
    /// work leaves the stage as it is; so do the two final stages.
    pub open spec fn next(self, event: Event) -> Stage {
        match (self, event) {
            (Stage::CreateLogFile, Event::LogFile(ok)) => if ok {
                Stage::BuildConsoleSink
            } else {
                Stage::Aborted(BootError::LogFileCreation)
            },
            (Stage::BuildConsoleSink, Event::Console(c)) => Stage::BuildFileSink(mode_for(c)),
            (Stage::BuildFileSink(m), Event::FileSink(ok)) => if ok {
                Stage::Install(m)
            } else {
                Stage::Aborted(BootError::FileSinkConstruction)
            },
            (Stage::Install(m), Event::Installed(ok)) => if ok {
                Stage::Announce(m)
            } else {
                Stage::Aborted(BootError::Installation(m))
            },
            _ => self,
        }
    }

    /// Whether no further work follows.
    pub open spec fn is_final(self) -> bool {
        self is Announce || self is Aborted
    }

    /// The first stage of a start-up.
    pub fn start() -> (s: Stage)
        ensures
            s == Stage::CreateLogFile,
    {
        Stage::CreateLogFile
    }

    /// Moves on by the outcome of the current stage's work.
    pub fn advance(self, event: Event) -> (r: Stage)
        ensures
            r == self.next(event),
    {
        match (self, event) {
            (Stage::CreateLogFile, Event::LogFile(ok)) => if ok {
                Stage::BuildConsoleSink
            } else {
                Stage::Aborted(BootError::LogFileCreation)
            },
            (Stage::BuildConsoleSink, Event::Console(c)) => Stage::BuildFileSink(install_mode(c)),
            (Stage::BuildFileSink(m), Event::FileSink(ok)) => if ok {
                Stage::Install(m)
            } else {
                Stage::Aborted(BootError::FileSinkConstruction)
            },
            (Stage::Install(m), Event::Installed(ok)) => if ok {
                Stage::Announce(m)
            } else {
                Stage::Aborted(BootError::Installation(m))
            },
            _ => self,
        }
    }

    /// Whether the start-up is over, successfully or not.
    pub fn is_finished(&self) -> (r: bool)
        ensures
            r == self.is_final(),
    {
        match self {
            Stage::Announce(_) | Stage::Aborted(_) => true,
            _ => false,
        }
    }

    /// The end of the start-up: the installed mode, or the failure.
    pub fn outcome(&self) -> (r: Option<Result<InstallMode, BootError>>)
        ensures
            r == match *self {
                Stage::Announce(m) => Some(Ok(m)),
                Stage::Aborted(e) => Some(Err(e)),
                _ => None::<Result<InstallMode, BootError>>,
            },
    {
        match self {
            Stage::Announce(m) => Some(Ok(*m)),
            Stage::Aborted(e) => Some(Err(*e)),
            _ => None,
        }
    }
}

/// The stage reached from `s` by the events in order.
pub open spec fn run(s: Stage, events: Seq<Event>) -> Stage
    decreases events.len(),
{
    if events.len() == 0 {
        s
    } else {
        run(s.next(events[0]), events.drop_first())
    }
}

/// A finished start-up stays finished, whatever events follow.
pub proof fn lemma_final_stage_stays(s: Stage, events: Seq<Event>)
    requires
        s.is_final(),
    ensures
        run(s, events) == s,
    decreases events.len(),
{
    if events.len() > 0 {
        lemma_final_stage_stays(s.next(events[0]), events.drop_first());
    }
}

/// When the log file cannot be created the start-up fails with that error at
/// once: no sink is built and no logger installed, whatever is reported
/// afterwards.
pub proof fn lemma_log_file_failure_aborts(events: Seq<Event>)
    ensures
        run(Stage::CreateLogFile, seq![Event::LogFile(false)] + events) == Stage::Aborted(
            BootError::LogFileCreation,
        ),
{
    let all = seq![Event::LogFile(false)] + events;
    assert(all[0] == Event::LogFile(false));
    assert(all.drop_first() =~= events);
    lemma_final_stage_stays(Stage::Aborted(BootError::LogFileCreation), events);
}

/// The console sink's outcome is never fatal: with the log file, the file
/// sink and the installation in order, the start-up succeeds, on both sinks
/// when a terminal is there and on the file alone when none is.
pub proof fn lemma_console_absence_falls_back(c: ConsoleSink)
    ensures
        run(Stage::CreateLogFile, seq![Event::LogFile(true), Event::Console(c)])
            == Stage::BuildFileSink(mode_for(c)),
        run(
            Stage::CreateLogFile,
            seq![Event::LogFile(true), Event::Console(c), Event::FileSink(true), Event::Installed(true)],
        ) == Stage::Announce(mode_for(c)),
        mode_for(ConsoleSink::NoTerminal) == InstallMode::FileOnly,
        mode_for(ConsoleSink::Ready) == InstallMode::Combined,
{
    reveal_with_fuel(run, 5);
    let two = seq![Event::LogFile(true), Event::Console(c)];
    assert(two.drop_first() =~= seq![Event::Console(c)]);
    assert(seq![Event::Console(c)].drop_first() =~= Seq::<Event>::empty());
    let four = seq![Event::LogFile(true), Event::Console(c), Event::FileSink(true), Event::Installed(true)];
    assert(four.drop_first() =~= seq![Event::Console(c), Event::FileSink(true), Event::Installed(true)]);
    assert(four.drop_first().drop_first() =~= seq![Event::FileSink(true), Event::Installed(true)]);
    assert(four.drop_first().drop_first().drop_first() =~= seq![Event::Installed(true)]);
    assert(seq![Event::Installed(true)].drop_first() =~= Seq::<Event>::empty());
}

/// The handle of an installed logger; only `LoggerRegistry::install`
/// makes one.
#[derive(Debug)]
pub struct ActiveLogger {
    mode: InstallMode,
}

impl ActiveLogger {
    pub closed spec fn view_mode(&self) -> InstallMode {
        self.mode
    }

    /// The sinks that the installed logger routes records to.
    pub fn mode(&self) -> (m: InstallMode)
        ensures
            m == self.view_mode(),
    {
        self.mode
    }
}

/// The process-wide logger slot: empty at first, filled at most once.
#[derive(Debug)]
pub struct LoggerRegistry {
    active: Option<InstallMode>,
}

impl View for LoggerRegistry {
    type V = Option<InstallMode>;

    closed spec fn view(&self) -> Option<InstallMode> {
        self.active
    }
}

impl LoggerRegistry {
    /// A slot in which nothing is installed yet.
    pub fn new() -> (r: LoggerRegistry)
        ensures
            r@ == None::<InstallMode>,
    {
        LoggerRegistry { active: None }
    }

    /// Whether a logger is installed.
    pub fn is_installed(&self) -> (r: bool)
        ensures
            r == self@ is Some,
    {
        self.active.is_some()
    }

    /// Installs a logger in `mode`. Only the first call succeeds; any later
    /// one reports an installation error on its own mode and changes nothing.
    pub fn install(&mut self, mode: InstallMode) -> (r: Result<ActiveLogger, BootError>)
        ensures
            (final(self)@, r is Ok) == after_install(old(self)@, mode),
            r is Ok ==> r->Ok_0.view_mode() == mode,
            r is Err ==> r->Err_0 == BootError::Installation(mode),
    {
        if self.active.is_some() {
            Err(BootError::Installation(mode))
        } else {
            self.active = Some(mode);
            Ok(ActiveLogger { mode })
        }
    }
}

/// The slot after an installation in `mode` on `reg`, and whether it
/// succeeded.
pub open spec fn after_install(reg: Option<InstallMode>, mode: InstallMode) -> (Option<InstallMode>, bool) {
    match reg {
        None => (Some(mode), true),
        Some(_) => (reg, false),
    }
}

/// Once an installation has succeeded, a second one fails, whatever the
/// modes of the two calls, and leaves the first one in place.
pub proof fn lemma_second_install_rejected(reg: Option<InstallMode>, first: InstallMode, second: InstallMode)
    requires
        after_install(reg, first).1,
    ensures
        after_install(reg, first).0 == Some(first),
        after_install(after_install(reg, first).0, second) == (Some(first), false),
{
}

/// A start-up that reaches installation in a process whose slot is already
/// filled ends with the installation error of its own mode.
pub proof fn lemma_second_bootstrap_fails(reg: Option<InstallMode>, first: InstallMode, mode: InstallMode)
    requires
        after_install(reg, first).1,
    ensures
        Stage::Install(mode).next(Event::Installed(after_install(after_install(reg, first).0, mode).1))
            == Stage::Aborted(BootError::Installation(mode)),
{
}

} // verus!
