use image_analytics_bridge::bootstrap::{
    announcement, install_mode, sink_configs, startup_message, BootError, ConsoleSink, Destination,
    Event, InstallMode, LoggerRegistry, Stage, APP_NAME, LOGGING_PATH,
};
use image_analytics_bridge::verbosity::VerbosityLevel;

fn run(events: &[Event]) -> Stage {
    let mut stage = Stage::start();
    for e in events {
        stage = stage.advance(*e);
    }
    stage
}

#[test]
fn log_file_is_fixed_relative_path() {
    assert_eq!(LOGGING_PATH, "image-analytics-bridge.log");
    assert_eq!(APP_NAME, "Image Analytics Bridge");
}

#[test]
fn full_start_with_terminal_is_combined() {
    let s = run(&[
        Event::LogFile(true),
        Event::Console(ConsoleSink::Ready),
        Event::FileSink(true),
        Event::Installed(true),
    ]);
    assert_eq!(s, Stage::Announce(InstallMode::Combined));
    assert!(s.is_finished());
    assert_eq!(s.outcome(), Some(Ok(InstallMode::Combined)));
}

#[test]
fn no_terminal_falls_back_to_file_only() {
    let s = run(&[Event::LogFile(true), Event::Console(ConsoleSink::NoTerminal)]);
    assert_eq!(s, Stage::BuildFileSink(InstallMode::FileOnly));
    assert!(!s.is_finished());
    let s = s.advance(Event::FileSink(true)).advance(Event::Installed(true));
    assert_eq!(s.outcome(), Some(Ok(InstallMode::FileOnly)));
}

#[test]
fn log_file_failure_aborts_before_any_sink() {
    let s = run(&[
        Event::LogFile(false),
        Event::Console(ConsoleSink::Ready),
        Event::FileSink(true),
        Event::Installed(true),
    ]);
    assert_eq!(s, Stage::Aborted(BootError::LogFileCreation));
    assert_eq!(s.outcome(), Some(Err(BootError::LogFileCreation)));
}

#[test]
fn file_sink_failure_aborts() {
    let s = run(&[
        Event::LogFile(true),
        Event::Console(ConsoleSink::Ready),
        Event::FileSink(false),
    ]);
    assert_eq!(s.outcome(), Some(Err(BootError::FileSinkConstruction)));
}

#[test]
fn rejected_installation_names_its_mode() {
    let s = run(&[
        Event::LogFile(true),
        Event::Console(ConsoleSink::NoTerminal),
        Event::FileSink(true),
        Event::Installed(false),
    ]);
    assert_eq!(
        s.outcome(),
        Some(Err(BootError::Installation(InstallMode::FileOnly)))
    );
}

#[test]
fn unrelated_event_leaves_stage() {
    assert_eq!(Stage::start().advance(Event::Installed(true)), Stage::CreateLogFile);
    assert_eq!(Stage::start().outcome(), None);
}

#[test]
fn console_outcome_picks_mode() {
    assert_eq!(install_mode(ConsoleSink::Ready), InstallMode::Combined);
    assert_eq!(install_mode(ConsoleSink::NoTerminal), InstallMode::FileOnly);
}

#[test]
fn second_installation_is_rejected() {
    let mut reg = LoggerRegistry::new();
    assert!(!reg.is_installed());
    let first = reg.install(InstallMode::Combined).unwrap();
    assert_eq!(first.mode(), InstallMode::Combined);
    assert!(reg.is_installed());
    let second = reg.install(InstallMode::FileOnly);
    assert_eq!(
        second.unwrap_err(),
        BootError::Installation(InstallMode::FileOnly)
    );
    let third = reg.install(InstallMode::Combined);
    assert_eq!(
        third.unwrap_err(),
        BootError::Installation(InstallMode::Combined)
    );
}

#[test]
fn diagnostics_name_path_or_mode() {
    assert_eq!(
        BootError::LogFileCreation.diagnostic(),
        "Could not create the logfile image-analytics-bridge.log. Terminating program!"
    );
    assert_eq!(
        BootError::FileSinkConstruction.diagnostic(),
        "Could not create the file logger on image-analytics-bridge.log. Terminating program!"
    );
    assert_eq!(
        BootError::Installation(InstallMode::Combined).diagnostic(),
        "Could not create a combined logger. Terminating program!"
    );
    assert_eq!(
        BootError::Installation(InstallMode::FileOnly).diagnostic(),
        "Could not create a 'writer only' logger. Terminating program!"
    );
}

#[test]
fn startup_record_text() {
    assert_eq!(
        startup_message("1.2.3"),
        "Image Analytics Bridge 1.2.3 started"
    );
    assert_eq!(
        announcement(0, 9, 0, "-beta"),
        "Image Analytics Bridge 0.9.0-beta started"
    );
}

#[test]
fn both_sinks_share_the_level() {
    let (console, file) = sink_configs(VerbosityLevel::Debug);
    assert_eq!(console.destination, Destination::Console);
    assert_eq!(file.destination, Destination::File);
    assert_eq!(console.level, VerbosityLevel::Debug);
    assert_eq!(file.level, VerbosityLevel::Debug);
}
