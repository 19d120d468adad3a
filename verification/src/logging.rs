//! The logger's decisions: which records are written, and what a line looks
//! like on the terminal and in the log file.

use crate::steps::{log_prefix_text, shown, write_log_prefix, Step, StepStack};
use crate::text::{has_prefix, same_text, starts_with};
use vstd::prelude::*;
use vstd::string::*;

verus! {

/// The severity of a record, the gravest first.
#[derive(Clone, Copy, Debug, PartialEq, Eq, Structural)]
pub enum Level {
    Error,
    Warn,
    Info,
    Debug,
    Trace,
}

/// The least grave severity that is still written.
#[derive(Clone, Copy, Debug, PartialEq, Eq, Structural)]
pub enum LevelFilter {
    Off,
    Error,
    Warn,
    Info,
    Debug,
    Trace,
}

/// The logging options of the command line.
pub struct LoggingConfig {
    /// Output only warnings and errors, no progress.
    pub quiet: bool,
    /// Output additional debugging information.
    pub verbose: bool,
    /// Log file for the background worker.
    pub log_file: Option<String>,
}

/// Where the lines of the log file go, and what each of them begins with.
pub struct FileLogging {
    pub path: String,
    pub prefix: String,
}

/// A configured logger.
pub struct Logger {
    pub level_filter: LevelFilter,
    pub show_steps: bool,
    pub file_logging: Option<FileLogging>,
}

/// The lines that one record gives.
pub struct LogLines {
    /// The line for the standard error stream.
    pub stderr_line: String,
    /// The line for the log file, where one is kept.
    pub file_line: Option<String>,
}

impl Level {
    /// Position of the severity, the gravest being 1.
    pub open spec fn rank(self) -> nat {
        match self {
            Level::Error => 1,
            Level::Warn => 2,
            Level::Info => 3,
            Level::Debug => 4,
            Level::Trace => 5,
        }
    }

    /// What a line of this severity begins with.
    pub open spec fn prefix_text(self) -> Seq<char> {
        match self {
            Level::Error => "error: "@,
            Level::Warn => "warning: "@,
            Level::Info => ""@,
            Level::Debug => "debug: "@,
            Level::Trace => "trace: "@,
        }
    }

    /// What a line of this severity begins with.
    pub fn prefix(&self) -> (prefix: &'static str)
        ensures
            prefix@ == self.prefix_text(),
    {
        match self {
            Level::Error => "error: ",
            Level::Warn => "warning: ",
            Level::Info => "",
            Level::Debug => "debug: ",
            Level::Trace => "trace: ",
        }
    }

    fn position(&self) -> (rank: u8)
        ensures
            rank == self.rank(),
    {
        match self {
            Level::Error => 1,
            Level::Warn => 2,
            Level::Info => 3,
            Level::Debug => 4,
            Level::Trace => 5,
        }
    }
}

impl LevelFilter {
    /// Position of the least grave severity that passes; 0 lets none pass.
    pub open spec fn rank(self) -> nat {
        match self {
            LevelFilter::Off => 0,
            LevelFilter::Error => 1,
            LevelFilter::Warn => 2,
            LevelFilter::Info => 3,
            LevelFilter::Debug => 4,
            LevelFilter::Trace => 5,
        }
    }

    fn position(&self) -> (rank: u8)
        ensures
            rank == self.rank(),
    {
        match self {
            LevelFilter::Off => 0,
            LevelFilter::Error => 1,
            LevelFilter::Warn => 2,
            LevelFilter::Info => 3,
            LevelFilter::Debug => 4,
            LevelFilter::Trace => 5,
        }
    }
}

/// Whether a record comes from this program: from the module `fleeting` or
/// one below it. A record without a module counts as ours.
pub open spec fn is_ours(origin: Option<Seq<char>>) -> bool {
    match origin {
        None => true,
        Some(path) => path == "fleeting"@ || has_prefix(path, "fleeting::"@),
    }
}

/// The view of an optional text.
pub open spec fn optional_text(text: Option<&str>) -> Option<Seq<char>> {
    match text {
        Some(t) => Some(t@),
        None => None,
    }
}

impl LoggingConfig {
    /// The filter that the options choose: `verbose` lets debugging
    /// information pass, `quiet` only warnings and errors, and `verbose`
    /// wins over `quiet`.
    pub open spec fn chosen_level(self) -> LevelFilter {
        if self.verbose {
            LevelFilter::Debug
        } else if self.quiet {
            LevelFilter::Warn
        } else {
            LevelFilter::Info
        }
    }

    /// The filter that the options choose.
    pub fn level_filter(&self) -> (filter: LevelFilter)
        ensures
            filter == self.chosen_level(),
    {
        if self.verbose {
            LevelFilter::Debug
        } else if self.quiet {
            LevelFilter::Warn
        } else {
            LevelFilter::Info
        }
    }

    /// Configures the logger.
    ///
    /// The steps are shown unless only warnings and errors pass. A log file
    /// is kept if this process does file logging, which it says by giving
    /// the prefix of the file's lines, and the options name a file.
    pub fn init(&self, file_logging: Option<String>) -> (logger: Logger)
        ensures
            logger.level_filter == self.chosen_level(),
            logger.show_steps == (self.chosen_level().rank() >= LevelFilter::Info.rank()),
            logger.file_logging is Some <==> file_logging is Some && self.log_file is Some,
            logger.file_logging is Some ==> logger.file_logging->0.path@ == self.log_file->0@
                && logger.file_logging->0.prefix@ == file_logging->0@,
    {
        let level_filter = self.level_filter();
        let file = match file_logging {
            Some(prefix) => match &self.log_file {
                Some(path) => Some(FileLogging { path: path.clone(), prefix }),
                None => None,
            },
            None => None,
        };
        Logger { level_filter, show_steps: level_filter.position() >= 3, file_logging: file }
    }
}

impl Logger {
    /// Whether a record of this severity and module is written.
    pub open spec fn accepts(self, level: Level, origin: Option<Seq<char>>) -> bool {
        level.rank() <= self.level_filter.rank() && is_ours(origin)
    }

    /// The step prefix of the next line.
    pub open spec fn step_text(self, steps: Seq<Step>) -> Seq<char> {
        if self.show_steps {
            log_prefix_text(steps)
        } else {
            Seq::empty()
        }
    }

    /// The line that a record gives on the standard error stream.
    pub open spec fn stderr_text(self, steps: Seq<Step>, level: Level, message: Seq<char>) -> Seq<
        char,
    > {
        self.step_text(steps) + level.prefix_text() + message + "\n"@
    }

    /// Every record is looked at; `log` decides which are written.
    pub fn enabled(&self) -> (r: bool)
        ensures
            r,
    {
        true
    }

    /// Decides whether a record of this severity and module is written.
    pub fn is_accepted(&self, level: Level, origin: Option<&str>) -> (r: bool)
        ensures
            r == self.accepts(level, optional_text(origin)),
    {
        if level.position() > self.level_filter.position() {
            return false;
        }
        match origin {
            None => true,
            Some(path) => same_text(path, "fleeting") || starts_with(path, "fleeting::"),
        }
    }

    /// Writes one record: gives its lines, or nothing for a record that is
    /// not written.
    ///
    /// The line begins with the step prefix, where steps are shown, and the
    /// prefix of the severity, and ends with a line feed. The line of the
    /// log file is the same with the file's prefix before it. Steps that a
    /// line has shown count as shown from then on.
    pub fn log(
        &self,
        steps: &mut StepStack,
        level: Level,
        origin: Option<&str>,
        message: &str,
    ) -> (lines: Option<LogLines>)
        ensures
            lines is Some <==> self.accepts(level, optional_text(origin)),
            final(steps)@ == if lines is Some && self.show_steps {
                shown(old(steps)@)
            } else {
                old(steps)@
            },
            lines is Some ==> lines->0.stderr_line@ == self.stderr_text(
                old(steps)@,
                level,
                message@,
            ),
            lines is Some ==> (lines->0.file_line is Some <==> self.file_logging is Some),
            lines is Some && self.file_logging is Some ==> lines->0.file_line->0@
                == self.file_logging->0.prefix@ + lines->0.stderr_line@,
    {
        if !self.is_accepted(level, origin) {
            return None;
        }
        let mut stderr_line = String::new();
        if self.show_steps {
            write_log_prefix(&mut stderr_line, steps);
        }
        assert(stderr_line@ =~= self.step_text(old(steps)@));
        stderr_line.append(level.prefix());
        stderr_line.append(message);
        stderr_line.append("\n");
        let file_line = match &self.file_logging {
            Some(file) => {
                let mut line = file.prefix.clone();
                line.append(stderr_line.as_str());
                Some(line)
            },
            None => None,
        };
        Some(LogLines { stderr_line, file_line })
    }

    /// Nothing is held back, so there is nothing to flush.
    pub fn flush(&self) {
    }
}

} // verus!
