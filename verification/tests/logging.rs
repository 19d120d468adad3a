use fleeting::logging::{Level, LevelFilter, Logger, LoggingConfig};
use fleeting::steps::{start, One, StepHandle, StepStack};

fn options(quiet: bool, verbose: bool, log_file: Option<&str>) -> LoggingConfig {
    LoggingConfig { quiet, verbose, log_file: log_file.map(String::from) }
}

#[test]
fn level_is_chosen_by_the_options() {
    assert_eq!(options(false, false, None).level_filter(), LevelFilter::Info);
    assert_eq!(options(true, false, None).level_filter(), LevelFilter::Warn);
    assert_eq!(options(false, true, None).level_filter(), LevelFilter::Debug);
    assert_eq!(options(true, true, None).level_filter(), LevelFilter::Debug);
}

#[test]
fn steps_are_shown_unless_quiet() {
    assert!(options(false, false, None).init(None).show_steps);
    assert!(options(false, true, None).init(None).show_steps);
    assert!(!options(true, false, None).init(None).show_steps);
}

#[test]
fn log_file_is_kept_only_by_a_process_that_does_file_logging() {
    let with_file = options(false, false, Some("/tmp/fleeting.log"));
    assert!(with_file.init(None).file_logging.is_none());
    let file = with_file.init(Some(String::from("fleeting[1]: "))).file_logging.unwrap();
    assert_eq!(file.path, "/tmp/fleeting.log");
    assert_eq!(file.prefix, "fleeting[1]: ");
    assert!(options(false, false, None).init(Some(String::from("p"))).file_logging.is_none());
}

#[test]
fn prefixes_of_the_levels() {
    assert_eq!(Level::Error.prefix(), "error: ");
    assert_eq!(Level::Warn.prefix(), "warning: ");
    assert_eq!(Level::Info.prefix(), "");
    assert_eq!(Level::Debug.prefix(), "debug: ");
    assert_eq!(Level::Trace.prefix(), "trace: ");
}

#[test]
fn records_below_the_level_are_dropped() {
    let logger = options(false, false, None).init(None);
    assert!(logger.is_accepted(Level::Error, None));
    assert!(logger.is_accepted(Level::Warn, None));
    assert!(logger.is_accepted(Level::Info, None));
    assert!(!logger.is_accepted(Level::Debug, None));
    assert!(!logger.is_accepted(Level::Trace, None));
    let quiet = options(true, false, None).init(None);
    assert!(quiet.is_accepted(Level::Warn, None));
    assert!(!quiet.is_accepted(Level::Info, None));
    let verbose = options(false, true, None).init(None);
    assert!(verbose.is_accepted(Level::Debug, None));
    assert!(!verbose.is_accepted(Level::Trace, None));
    let off = Logger { level_filter: LevelFilter::Off, show_steps: false, file_logging: None };
    assert!(!off.is_accepted(Level::Error, None));
}

#[test]
fn records_of_other_programs_are_dropped() {
    let logger = options(false, false, None).init(None);
    assert!(logger.is_accepted(Level::Info, Some("fleeting")));
    assert!(logger.is_accepted(Level::Info, Some("fleeting::worker")));
    assert!(!logger.is_accepted(Level::Info, Some("fleeting_other")));
    assert!(!logger.is_accepted(Level::Info, Some("russh::client")));
    assert!(!logger.is_accepted(Level::Error, Some("")));
    assert!(logger.enabled());
}

#[test]
fn line_has_step_prefix_level_prefix_and_message() {
    let logger = options(false, false, None).init(None);
    let mut steps = StepStack::new();
    let _handle: StepHandle<(), One<()>> = start(&mut steps);
    let lines = logger.log(&mut steps, Level::Info, Some("fleeting::worker"), "Starting an ephemeral instance...").unwrap();
    assert_eq!(lines.stderr_line, "[1/2] Starting an ephemeral instance...\n");
    assert!(lines.file_line.is_none());
    let lines = logger.log(&mut steps, Level::Warn, None, "careful").unwrap();
    assert_eq!(lines.stderr_line, "      warning: careful\n");
    let lines = logger.log(&mut steps, Level::Error, None, "broken").unwrap();
    assert_eq!(lines.stderr_line, "      error: broken\n");
}

#[test]
fn dropped_record_does_not_use_up_the_step() {
    let logger = options(false, false, None).init(None);
    let mut steps = StepStack::new();
    let _handle: StepHandle<(), ()> = start(&mut steps);
    assert!(logger.log(&mut steps, Level::Debug, None, "detail").is_none());
    assert!(logger.log(&mut steps, Level::Info, Some("other"), "foreign").is_none());
    assert!(!steps.steps[0].logged);
    let lines = logger.log(&mut steps, Level::Info, None, "shown").unwrap();
    assert_eq!(lines.stderr_line, "[1/1] shown\n");
    assert!(steps.steps[0].logged);
}

#[test]
fn quiet_logger_shows_no_steps() {
    let logger = options(true, false, None).init(None);
    let mut steps = StepStack::new();
    let _handle: StepHandle<(), ()> = start(&mut steps);
    let lines = logger.log(&mut steps, Level::Warn, None, "careful").unwrap();
    assert_eq!(lines.stderr_line, "warning: careful\n");
    assert!(!steps.steps[0].logged);
}

#[test]
fn verbose_logger_writes_debugging_lines() {
    let logger = options(false, true, None).init(None);
    let mut steps = StepStack::new();
    let lines = logger.log(&mut steps, Level::Debug, None, "Generating otp...").unwrap();
    assert_eq!(lines.stderr_line, "debug: Generating otp...\n");
}

#[test]
fn line_of_the_log_file_begins_with_the_files_prefix() {
    let logger = options(false, false, Some("log.txt")).init(Some(String::from("fleeting[42/ctx]: ")));
    let mut steps = StepStack::new();
    let _handle: StepHandle<(), ()> = start(&mut steps);
    let lines = logger.log(&mut steps, Level::Info, None, "ready").unwrap();
    assert_eq!(lines.stderr_line, "[1/1] ready\n");
    assert_eq!(lines.file_line.unwrap(), "fleeting[42/ctx]: [1/1] ready\n");
}
