//! The dispatcher: which of the three modes an invocation selects, and the
//! protocol between the launcher and the worker of the background mode.
//!
//! The processes, their pipes and the racing of their events belong to the
//! program around this library. It reports each event to the [`Launcher`] or
//! the [`Worker`] and does what comes back.

use crate::eventually::SECOND;
use crate::logging::LoggingConfig;
use crate::text::{decimal, push_decimal, texts};
use crate::worker::WorkerConfig;
use vstd::prelude::*;
use vstd::string::*;

verus! {

/// The exit status of a run that went well.
pub const EXIT_SUCCESS: u8 = 0;

/// The exit status after an internal failure or a termination signal.
pub const EXIT_FAILURE: u8 = 1;

/// The task of an invocation.
pub struct WhatToRun {
    /// The subprocess to run.
    pub command: Option<Vec<String>>,
    /// Keep the VM/Docker context alive in background while PID is running.
    pub while_pid: Option<u32>,
    /// This is the worker for the background launch.
    pub worker: bool,
}

/// The options of an invocation.
pub struct Cli {
    pub what_to_run: WhatToRun,
    pub logging: LoggingConfig,
    pub worker: WorkerConfig,
}

/// What the launcher sends to the worker.
#[derive(Clone, Copy, Debug, PartialEq, Eq, Structural)]
pub struct ChildLaunchArgs {
    pub launcher_pid: u32,
}

/// What the worker sends to the launcher once the Docker context is there.
#[derive(Clone, Copy, Debug, PartialEq, Eq, Structural)]
pub struct ChildContextReady {}

/// The mode of an invocation.
#[derive(Clone, Copy, Debug, PartialEq, Eq, Structural)]
pub enum Mode {
    /// Run the user's command under a fresh Docker context.
    Foreground,
    /// Start a detached worker, report its pid, wait until it is ready.
    Launcher,
    /// Bring the context up and keep it while the watched process runs.
    Worker { watch_pid: u32 },
}

/// Why an invocation is refused.
#[derive(Clone, Copy, Debug, PartialEq, Eq, Structural)]
pub enum CliError {
    /// The invocation does not name exactly one task.
    Usage,
    /// A log file was asked for in the foreground.
    LogFileWithoutWhile,
}

impl WhatToRun {
    /// The mode that the combination of command, watched process and worker
    /// mark selects; every other combination selects none.
    pub open spec fn selected(self) -> Option<Mode> {
        match (self.command, self.while_pid, self.worker) {
            (Some(_), None, false) => Some(Mode::Foreground),
            (None, Some(_), false) => Some(Mode::Launcher),
            (None, Some(watch_pid), true) => Some(Mode::Worker { watch_pid }),
            _ => None,
        }
    }

    /// Selects the mode of the invocation.
    pub fn mode(&self) -> (mode: Option<Mode>)
        ensures
            mode == self.selected(),
    {
        match (&self.command, self.while_pid, self.worker) {
            (Some(_), None, false) => Some(Mode::Foreground),
            (None, Some(_), false) => Some(Mode::Launcher),
            (None, Some(watch_pid), true) => Some(Mode::Worker { watch_pid }),
            _ => None,
        }
    }
}

impl Cli {
    /// Decides what the invocation runs.
    ///
    /// Exactly one of a command and a process to watch must be given, and
    /// the worker mark goes with a process to watch; anything else is a
    /// usage error. A log file is kept only by the worker of the background
    /// mode, so it is refused in the foreground.
    pub fn run(&self) -> (mode: Result<Mode, CliError>)
        ensures
            mode == match self.what_to_run.selected() {
                None => Err::<Mode, CliError>(CliError::Usage),
                Some(Mode::Foreground) => if self.logging.log_file is Some {
                    Err::<Mode, CliError>(CliError::LogFileWithoutWhile)
                } else {
                    Ok::<Mode, CliError>(Mode::Foreground)
                },
                Some(other) => Ok::<Mode, CliError>(other),
            },
    {
        match self.what_to_run.mode() {
            None => Err(CliError::Usage),
            Some(Mode::Foreground) => {
                if self.logging.log_file.is_some() {
                    Err(CliError::LogFileWithoutWhile)
                } else {
                    Ok(Mode::Foreground)
                }
            },
            Some(other) => Ok(other),
        }
    }
}

impl CliError {
    /// The message of the error.
    pub fn message(&self) -> (message: &'static str)
        ensures
            message@ == match *self {
                CliError::Usage => "provide exactly one of COMMAND and '--while'"@,
                CliError::LogFileWithoutWhile => "'--log-file' is only applicable when using '--while'."@,
            },
    {
        match self {
            CliError::Usage => "provide exactly one of COMMAND and '--while'",
            CliError::LogFileWithoutWhile => "'--log-file' is only applicable when using '--while'.",
        }
    }
}

/// The user's command ended without an exit code, as after a signal.
#[derive(Clone, Copy, Debug, PartialEq, Eq, Structural)]
pub struct CommandDidNotExit;

/// The exit status that stands for the exit code of the user's command: its
/// lowest eight bits.
pub open spec fn exit_status(code: i32) -> u8 {
    (code as int % 256) as u8
}

/// Maps the end of the user's command to the exit status of the program:
/// the command's own exit code, or an error where it has none.
pub fn run_user_command(code: Option<i32>) -> (status: Result<u8, CommandDidNotExit>)
    ensures
        status == match code {
            Some(c) => Ok::<u8, CommandDidNotExit>(exit_status(c)),
            None => Err::<u8, CommandDidNotExit>(CommandDidNotExit),
        },
{
    match code {
        Some(c) => {
            if c >= 0 {
                Ok((c % 256) as u8)
            } else {
                let below: i32 = -(c + 1);
                Ok((255 - below % 256) as u8)
            }
        },
        None => Err(CommandDidNotExit),
    }
}

impl CommandDidNotExit {
    /// The message of the error.
    pub fn message(&self) -> (message: &'static str)
        ensures
            message@ == "command did not exit"@,
    {
        "command did not exit"
    }
}

/// The variable that tells the user's command which Docker context to use.
pub fn docker_context_variable() -> (name: &'static str)
    ensures
        name@ == "DOCKER_CONTEXT"@,
{
    "DOCKER_CONTEXT"
}

/// What to do after a look at the process table.
#[derive(Clone, Copy, Debug, PartialEq, Eq, Structural)]
pub enum PidWatch {
    /// The process runs: look again after this many milliseconds.
    Sleep(u64),
    /// The process is gone.
    Gone,
}

/// Decides what to do after a look at the process table for a watched
/// process.
pub fn waitpid(present: bool) -> (watch: PidWatch)
    ensures
        watch == if present {
            PidWatch::Sleep(SECOND)
        } else {
            PidWatch::Gone
        },
{
    if present {
        PidWatch::Sleep(SECOND)
    } else {
        PidWatch::Gone
    }
}

/// The command line of the worker: that of the launcher with the worker
/// mark after it.
pub fn worker_argv(launcher_argv: &Vec<String>) -> (argv: Vec<String>)
    ensures
        texts(argv@) == texts(launcher_argv@).push("--worker"@),
{
    let mut argv: Vec<String> = Vec::new();
    let mut i: usize = 0;
    assert(texts(argv@) =~= texts(launcher_argv@).take(0));
    while i < launcher_argv.len()
        invariant
            i <= launcher_argv.len(),
            texts(argv@) == texts(launcher_argv@).take(i as int),
        decreases launcher_argv.len() - i,
    {
        let ghost before = texts(argv@);
        argv.push(launcher_argv[i].clone());
        assert(texts(argv@) =~= before.push(launcher_argv@[i as int]@));
        assert(texts(launcher_argv@).take(i + 1) =~= texts(launcher_argv@).take(i as int).push(
            launcher_argv@[i as int]@,
        ));
        i += 1;
    }
    assert(texts(launcher_argv@).take(launcher_argv.len() as int) =~= texts(launcher_argv@));
    let ghost before = texts(argv@);
    argv.push(String::from_str("--worker"));
    assert(texts(argv@) =~= before.push("--worker"@));
    argv
}

/// What each line of the worker's log file begins with: the program, the
/// worker's pid and, where one was chosen, the name of the context.
pub open spec fn worker_log_prefix_text(pid: u32, context_name: Option<Seq<char>>) -> Seq<char> {
    "fleeting["@ + decimal(pid as nat) + match context_name {
        Some(name) => "/"@ + name,
        None => Seq::empty(),
    } + "]: "@
}

/// Writes the prefix of the lines of the worker's log file.
pub fn worker_log_prefix(pid: u32, context_name: Option<&str>) -> (prefix: String)
    ensures
        prefix@ == worker_log_prefix_text(
            pid,
            match context_name {
                Some(name) => Some(name@),
                None => None,
            },
        ),
{
    let mut prefix = String::from_str("fleeting[");
    push_decimal(&mut prefix, pid as u64);
    let ghost head = prefix@;
    match context_name {
        Some(name) => {
            prefix.append("/");
            prefix.append(name);
            assert(prefix@ =~= head + ("/"@ + name@));
        },
        None => {
            assert(prefix@ =~= head + Seq::<char>::empty());
        },
    }
    prefix.append("]: ");
    prefix
}

/// Where the launcher stands.
#[derive(Clone, Copy, Debug, PartialEq, Eq, Structural)]
pub enum LauncherStage {
    /// The worker is being started.
    Spawning,
    /// The worker's pid is being printed.
    Announcing,
    /// The launch arguments are being sent to the worker.
    Sending,
    /// The launcher waits for the worker's ready line or the end of its log.
    Waiting,
    /// The launcher has ended with this exit status.
    Exited(u8),
    /// The launcher has failed.
    Failed(LauncherFailure),
}

/// Why the launcher failed.
#[derive(Clone, Copy, Debug, PartialEq, Eq, Structural)]
pub enum LauncherFailure {
    /// Starting the worker, printing its pid or sending its arguments failed.
    Io,
    /// Reading the worker's log failed.
    ReadingWorkerLogs,
    /// Reading the worker's output failed.
    ReadingReadySignal,
    /// The worker's first line is not the ready message.
    DecodingWorkerMessage,
}

/// What came on the worker's standard output.
#[derive(Clone, Copy, Debug, PartialEq, Eq, Structural)]
pub enum ReadyArm {
    /// A first line came; `valid` tells whether it is the ready message.
    Line { valid: bool },
    /// The output ended without a line.
    Closed,
    /// Reading failed.
    ReadFailed,
}

/// What happened to the launcher.
#[derive(Clone, Copy, Debug, PartialEq, Eq, Structural)]
pub enum LauncherEvent {
    /// What the last action asked for is done.
    Done,
    /// What the last action asked for failed.
    Failed,
    /// The worker's log has ended: the worker is gone.
    LogsEnded,
    /// Reading the worker's log failed.
    LogsFailed,
    /// The worker's standard output gave a line or ended.
    Ready(ReadyArm),
}

/// What the launcher does next.
#[derive(Clone, Copy, Debug, PartialEq, Eq, Structural)]
pub enum LauncherAction {
    /// Start the worker, detached, with all three streams piped.
    SpawnWorker,
    /// Print the worker's pid as one line on the standard output.
    PrintPid,
    /// Send the launch arguments to the worker and close its input.
    SendLaunchArgs,
    /// Wait for the worker's ready line or the end of its log, copying the
    /// log to the standard error.
    AwaitReady,
    /// End with this exit status.
    Exit(u8),
    /// End with this failure.
    Fail(LauncherFailure),
    /// Nothing new: go on with what is under way.
    Continue,
}

/// The launcher of the background mode.
#[derive(Clone, Copy, Debug, PartialEq, Eq, Structural)]
pub struct Launcher {
    pub stage: LauncherStage,
    /// Number of lines printed on the standard output.
    pub lines_printed: u8,
}

impl Launcher {
    /// The launcher as it begins.
    pub open spec fn initial() -> Launcher {
        Launcher { stage: LauncherStage::Spawning, lines_printed: 0 }
    }

    /// What the launcher does in its stage.
    pub open spec fn action(self) -> LauncherAction {
        match self.stage {
            LauncherStage::Spawning => LauncherAction::SpawnWorker,
            LauncherStage::Announcing => LauncherAction::PrintPid,
            LauncherStage::Sending => LauncherAction::SendLaunchArgs,
            LauncherStage::Waiting => LauncherAction::AwaitReady,
            LauncherStage::Exited(status) => LauncherAction::Exit(status),
            LauncherStage::Failed(failure) => LauncherAction::Fail(failure),
        }
    }

    /// The launcher after `event`.
    ///
    /// The stages follow each other as their work is done; a failure of the
    /// work ends the launcher. While it waits, the end of the worker's log
    /// means that the worker is gone without a context, and a line on the
    /// worker's output must be the ready message; an output that ends
    /// without a line decides nothing, the end of the log will. Events that
    /// do not belong to the stage are passed over.
    pub open spec fn after(self, event: LauncherEvent) -> Launcher {
        match (self.stage, event) {
            (LauncherStage::Spawning, LauncherEvent::Done) => Launcher {
                stage: LauncherStage::Announcing,
                lines_printed: 1,
            },
            (LauncherStage::Announcing, LauncherEvent::Done) => Launcher {
                stage: LauncherStage::Sending,
                ..self
            },
            (LauncherStage::Sending, LauncherEvent::Done) => Launcher {
                stage: LauncherStage::Waiting,
                ..self
            },
            (LauncherStage::Spawning, LauncherEvent::Failed)
            | (LauncherStage::Announcing, LauncherEvent::Failed)
            | (LauncherStage::Sending, LauncherEvent::Failed) => Launcher {
                stage: LauncherStage::Failed(LauncherFailure::Io),
                ..self
            },
            (LauncherStage::Waiting, LauncherEvent::LogsEnded) => Launcher {
                stage: LauncherStage::Exited(EXIT_FAILURE),
                ..self
            },
            (LauncherStage::Waiting, LauncherEvent::LogsFailed) => Launcher {
                stage: LauncherStage::Failed(LauncherFailure::ReadingWorkerLogs),
                ..self
            },
            (LauncherStage::Waiting, LauncherEvent::Ready(ReadyArm::Line { valid: true })) => {
                Launcher { stage: LauncherStage::Exited(EXIT_SUCCESS), ..self }
            },
            (LauncherStage::Waiting, LauncherEvent::Ready(ReadyArm::Line { valid: false })) => {
                Launcher {
                    stage: LauncherStage::Failed(LauncherFailure::DecodingWorkerMessage),
                    ..self
                }
            },
            (LauncherStage::Waiting, LauncherEvent::Ready(ReadyArm::ReadFailed)) => Launcher {
                stage: LauncherStage::Failed(LauncherFailure::ReadingReadySignal),
                ..self
            },
            _ => self,
        }
    }

    /// Begins: the worker is to be started.
    pub fn begin() -> (started: (Launcher, LauncherAction))
        ensures
            started.0 == Launcher::initial(),
            started.1 == LauncherAction::SpawnWorker,
    {
        (Launcher { stage: LauncherStage::Spawning, lines_printed: 0 }, LauncherAction::SpawnWorker)
    }

    /// What the launcher is told to do after `event`: the work of the stage
    /// that the event led to, or to go on where the event changed nothing.
    pub open spec fn response(self, event: LauncherEvent) -> LauncherAction {
        if self.after(event) == self {
            LauncherAction::Continue
        } else {
            self.after(event).action()
        }
    }

    /// Takes an event and says what to do next.
    pub fn advance(&mut self, event: LauncherEvent) -> (action: LauncherAction)
        ensures
            *final(self) == old(self).after(event),
            action == old(self).response(event),
    {
        let before = *self;
        match (self.stage, event) {
            (LauncherStage::Spawning, LauncherEvent::Done) => {
                self.stage = LauncherStage::Announcing;
                self.lines_printed = 1;
            },
            (LauncherStage::Announcing, LauncherEvent::Done) => {
                self.stage = LauncherStage::Sending;
            },
            (LauncherStage::Sending, LauncherEvent::Done) => {
                self.stage = LauncherStage::Waiting;
            },
            (LauncherStage::Spawning, LauncherEvent::Failed)
            | (LauncherStage::Announcing, LauncherEvent::Failed)
            | (LauncherStage::Sending, LauncherEvent::Failed) => {
                self.stage = LauncherStage::Failed(LauncherFailure::Io);
            },
            (LauncherStage::Waiting, LauncherEvent::LogsEnded) => {
                self.stage = LauncherStage::Exited(EXIT_FAILURE);
            },
            (LauncherStage::Waiting, LauncherEvent::LogsFailed) => {
                self.stage = LauncherStage::Failed(LauncherFailure::ReadingWorkerLogs);
            },
            (LauncherStage::Waiting, LauncherEvent::Ready(ReadyArm::Line { valid: true })) => {
                self.stage = LauncherStage::Exited(EXIT_SUCCESS);
            },
            (LauncherStage::Waiting, LauncherEvent::Ready(ReadyArm::Line { valid: false })) => {
                self.stage = LauncherStage::Failed(LauncherFailure::DecodingWorkerMessage);
            },
            (LauncherStage::Waiting, LauncherEvent::Ready(ReadyArm::ReadFailed)) => {
                self.stage = LauncherStage::Failed(LauncherFailure::ReadingReadySignal);
            },
            _ => {},
        }
        if self.stage == before.stage && self.lines_printed == before.lines_printed {
            LauncherAction::Continue
        } else {
            self.current_action()
        }
    }

    /// What the launcher does in its stage.
    pub fn current_action(&self) -> (action: LauncherAction)
        ensures
            action == self.action(),
    {
        match self.stage {
            LauncherStage::Spawning => LauncherAction::SpawnWorker,
            LauncherStage::Announcing => LauncherAction::PrintPid,
            LauncherStage::Sending => LauncherAction::SendLaunchArgs,
            LauncherStage::Waiting => LauncherAction::AwaitReady,
            LauncherStage::Exited(status) => LauncherAction::Exit(status),
            LauncherStage::Failed(failure) => LauncherAction::Fail(failure),
        }
    }

    /// Picks the event of a wait in which both the worker's log and its
    /// output may have something: the log goes first.
    pub fn race(logs: Option<LauncherEvent>, ready: Option<ReadyArm>) -> (event: Option<
        LauncherEvent,
    >)
        ensures
            event == match (logs, ready) {
                (Some(first), _) => Some(first),
                (None, Some(arm)) => Some(LauncherEvent::Ready(arm)),
                (None, None) => None,
            },
    {
        match (logs, ready) {
            (Some(first), _) => Some(first),
            (None, Some(arm)) => Some(LauncherEvent::Ready(arm)),
            (None, None) => None,
        }
    }
}

impl LauncherFailure {
    /// The message of the failure.
    pub fn message(&self) -> (message: &'static str)
        ensures
            message@ == match *self {
                LauncherFailure::Io => "starting the worker"@,
                LauncherFailure::ReadingWorkerLogs => "reading worker logs"@,
                LauncherFailure::ReadingReadySignal => "reading ready signal"@,
                LauncherFailure::DecodingWorkerMessage => "decoding worker message"@,
            },
    {
        match self {
            LauncherFailure::Io => "starting the worker",
            LauncherFailure::ReadingWorkerLogs => "reading worker logs",
            LauncherFailure::ReadingReadySignal => "reading ready signal",
            LauncherFailure::DecodingWorkerMessage => "decoding worker message",
        }
    }
}

/// The launcher after a sequence of events.
pub open spec fn launcher_after(events: Seq<LauncherEvent>) -> Launcher
    decreases events.len(),
{
    if events.len() == 0 {
        Launcher::initial()
    } else {
        launcher_after(events.drop_last()).after(events.last())
    }
}

/// Number of times that the launcher was told to print the worker's pid in
/// the course of a sequence of events.
pub open spec fn pid_lines(events: Seq<LauncherEvent>) -> nat
    decreases events.len(),
{
    if events.len() == 0 {
        0
    } else {
        let before = launcher_after(events.drop_last());
        pid_lines(events.drop_last()) + if before.response(events.last())
            == LauncherAction::PrintPid {
            1nat
        } else {
            0nat
        }
    }
}

/// Whatever happens, the launcher prints one line at most, the worker's
/// pid, and it has printed that line before it waits for the worker: the
/// pid is out before any wait on the worker's streams, and nothing else is
/// printed before the ready line comes.
pub proof fn lemma_launcher_prints_pid_once(events: Seq<LauncherEvent>)
    ensures
        pid_lines(events) <= 1,
        pid_lines(events) == launcher_after(events).lines_printed,
        launcher_after(events).stage == LauncherStage::Spawning ==> pid_lines(events) == 0,
        launcher_after(events).stage == LauncherStage::Announcing ==> pid_lines(events) == 1,
        launcher_after(events).stage == LauncherStage::Sending ==> pid_lines(events) == 1,
        launcher_after(events).stage == LauncherStage::Waiting ==> pid_lines(events) == 1,
        launcher_after(events).stage matches LauncherStage::Exited(status) ==> pid_lines(events)
            == 1,
    decreases events.len(),
{
    if events.len() > 0 {
        lemma_launcher_prints_pid_once(events.drop_last());
    }
}

/// Where the worker stands.
#[derive(Clone, Copy, Debug, PartialEq, Eq, Structural)]
pub enum WorkerStage {
    /// The launch arguments are being read.
    ReadingArgs,
    /// The bring-up runs, raced against the two watched processes.
    AwaitingContext,
    /// The ready line is out; the launcher is expected to exit.
    AwaitingLauncher,
    /// The context is supervised while the watched process runs.
    Supervising,
    /// The worker has ended with this exit status.
    Exited(u8),
    /// The worker has failed.
    Failed(WorkerFailure),
}

/// Why the worker failed.
#[derive(Clone, Copy, Debug, PartialEq, Eq, Structural)]
pub enum WorkerFailure {
    /// The launch arguments could not be read.
    DecodingLaunchArgs,
    /// The bring-up failed.
    BringUp,
    /// The published context failed.
    Context,
}

/// What happened to the worker.
#[derive(Clone, Copy, Debug, PartialEq, Eq, Structural)]
pub enum WorkerEvent {
    /// The launch arguments were read.
    ArgsRead,
    /// The launch arguments could not be read.
    ArgsInvalid,
    /// The bring-up succeeded: the Docker context is on disk.
    ContextReady,
    /// The bring-up, or the published context, failed.
    ContextFailed,
    /// The launcher is gone.
    LauncherExited,
    /// The watched process is gone.
    WatchedExited,
}

/// What the worker does next.
#[derive(Clone, Copy, Debug, PartialEq, Eq, Structural)]
pub enum WorkerAction {
    /// Read the launch arguments from the standard input.
    ReadLaunchArgs,
    /// Bring the context up, and watch the launcher and the watched process.
    AwaitContext,
    /// Print the ready message as one line on the standard output, then
    /// wait for the launcher to exit.
    Announce,
    /// Supervise the context and watch the watched process.
    Supervise,
    /// End with this exit status.
    Exit(u8),
    /// End with this failure.
    Fail(WorkerFailure),
    /// Nothing new: go on with what is under way.
    Continue,
}

/// The worker of the background mode.
#[derive(Clone, Copy, Debug, PartialEq, Eq, Structural)]
pub struct Worker {
    pub stage: WorkerStage,
    /// Number of lines printed on the standard output.
    pub lines_printed: u8,
}

impl Worker {
    /// The worker as it begins.
    pub open spec fn initial() -> Worker {
        Worker { stage: WorkerStage::ReadingArgs, lines_printed: 0 }
    }

    /// What the worker does in its stage.
    pub open spec fn action(self) -> WorkerAction {
        match self.stage {
            WorkerStage::ReadingArgs => WorkerAction::ReadLaunchArgs,
            WorkerStage::AwaitingContext => WorkerAction::AwaitContext,
            WorkerStage::AwaitingLauncher => WorkerAction::Announce,
            WorkerStage::Supervising => WorkerAction::Supervise,
            WorkerStage::Exited(status) => WorkerAction::Exit(status),
            WorkerStage::Failed(failure) => WorkerAction::Fail(failure),
        }
    }

    /// The worker after `event`.
    ///
    /// Before the context is ready, the end of the launcher or of the
    /// watched process ends the worker quietly, without a context. Once it
    /// is ready, the ready line goes out, the launcher is waited for, and
    /// the context is supervised until the watched process ends. A failure
    /// of the bring-up or of the context fails the worker. Events that do
    /// not belong to the stage are passed over.
    pub open spec fn after(self, event: WorkerEvent) -> Worker {
        match (self.stage, event) {
            (WorkerStage::ReadingArgs, WorkerEvent::ArgsRead) => Worker {
                stage: WorkerStage::AwaitingContext,
                ..self
            },
            (WorkerStage::ReadingArgs, WorkerEvent::ArgsInvalid) => Worker {
                stage: WorkerStage::Failed(WorkerFailure::DecodingLaunchArgs),
                ..self
            },
            (WorkerStage::AwaitingContext, WorkerEvent::ContextReady) => Worker {
                stage: WorkerStage::AwaitingLauncher,
                lines_printed: 1,
            },
            (WorkerStage::AwaitingContext, WorkerEvent::ContextFailed) => Worker {
                stage: WorkerStage::Failed(WorkerFailure::BringUp),
                ..self
            },
            (WorkerStage::AwaitingContext, WorkerEvent::LauncherExited)
            | (WorkerStage::AwaitingContext, WorkerEvent::WatchedExited) => Worker {
                stage: WorkerStage::Exited(EXIT_SUCCESS),
                ..self
            },
            (WorkerStage::AwaitingLauncher, WorkerEvent::LauncherExited) => Worker {
                stage: WorkerStage::Supervising,
                ..self
            },
            (WorkerStage::AwaitingLauncher, WorkerEvent::ContextFailed)
            | (WorkerStage::Supervising, WorkerEvent::ContextFailed) => Worker {
                stage: WorkerStage::Failed(WorkerFailure::Context),
                ..self
            },
            (WorkerStage::AwaitingLauncher, WorkerEvent::WatchedExited)
            | (WorkerStage::Supervising, WorkerEvent::WatchedExited) => Worker {
                stage: WorkerStage::Exited(EXIT_SUCCESS),
                ..self
            },
            _ => self,
        }
    }

    /// Begins: the launch arguments are to be read.
    pub fn begin() -> (started: (Worker, WorkerAction))
        ensures
            started.0 == Worker::initial(),
            started.1 == WorkerAction::ReadLaunchArgs,
    {
        (Worker { stage: WorkerStage::ReadingArgs, lines_printed: 0 }, WorkerAction::ReadLaunchArgs)
    }

    /// What the worker is told to do after `event`: the work of the stage
    /// that the event led to, or to go on where the event changed nothing.
    pub open spec fn response(self, event: WorkerEvent) -> WorkerAction {
        if self.after(event) == self {
            WorkerAction::Continue
        } else {
            self.after(event).action()
        }
    }

    /// Takes an event and says what to do next.
    pub fn advance(&mut self, event: WorkerEvent) -> (action: WorkerAction)
        ensures
            *final(self) == old(self).after(event),
            action == old(self).response(event),
    {
        let before = *self;
        match (self.stage, event) {
            (WorkerStage::ReadingArgs, WorkerEvent::ArgsRead) => {
                self.stage = WorkerStage::AwaitingContext;
            },
            (WorkerStage::ReadingArgs, WorkerEvent::ArgsInvalid) => {
                self.stage = WorkerStage::Failed(WorkerFailure::DecodingLaunchArgs);
            },
            (WorkerStage::AwaitingContext, WorkerEvent::ContextReady) => {
                self.stage = WorkerStage::AwaitingLauncher;
                self.lines_printed = 1;
            },
            (WorkerStage::AwaitingContext, WorkerEvent::ContextFailed) => {
                self.stage = WorkerStage::Failed(WorkerFailure::BringUp);
            },
            (WorkerStage::AwaitingContext, WorkerEvent::LauncherExited)
            | (WorkerStage::AwaitingContext, WorkerEvent::WatchedExited) => {
                self.stage = WorkerStage::Exited(EXIT_SUCCESS);
            },
            (WorkerStage::AwaitingLauncher, WorkerEvent::LauncherExited) => {
                self.stage = WorkerStage::Supervising;
            },
            (WorkerStage::AwaitingLauncher, WorkerEvent::ContextFailed)
            | (WorkerStage::Supervising, WorkerEvent::ContextFailed) => {
                self.stage = WorkerStage::Failed(WorkerFailure::Context);
            },
            (WorkerStage::AwaitingLauncher, WorkerEvent::WatchedExited)
            | (WorkerStage::Supervising, WorkerEvent::WatchedExited) => {
                self.stage = WorkerStage::Exited(EXIT_SUCCESS);
            },
            _ => {},
        }
        if self.stage == before.stage && self.lines_printed == before.lines_printed {
            WorkerAction::Continue
        } else {
            self.current_action()
        }
    }

    /// What the worker does in its stage.
    pub fn current_action(&self) -> (action: WorkerAction)
        ensures
            action == self.action(),
    {
        match self.stage {
            WorkerStage::ReadingArgs => WorkerAction::ReadLaunchArgs,
            WorkerStage::AwaitingContext => WorkerAction::AwaitContext,
            WorkerStage::AwaitingLauncher => WorkerAction::Announce,
            WorkerStage::Supervising => WorkerAction::Supervise,
            WorkerStage::Exited(status) => WorkerAction::Exit(status),
            WorkerStage::Failed(failure) => WorkerAction::Fail(failure),
        }
    }
}

impl WorkerFailure {
    /// The message of the failure.
    pub fn message(&self) -> (message: &'static str)
        ensures
            message@ == match *self {
                WorkerFailure::DecodingLaunchArgs => "decoding launch args"@,
                WorkerFailure::BringUp => "docker context could not be established"@,
                WorkerFailure::Context => "docker context failed"@,
            },
    {
        match self {
            WorkerFailure::DecodingLaunchArgs => "decoding launch args",
            WorkerFailure::BringUp => "docker context could not be established",
            WorkerFailure::Context => "docker context failed",
        }
    }
}

/// The worker after a sequence of events.
pub open spec fn worker_after(events: Seq<WorkerEvent>) -> Worker
    decreases events.len(),
{
    if events.len() == 0 {
        Worker::initial()
    } else {
        worker_after(events.drop_last()).after(events.last())
    }
}

/// Number of times that the worker was told to print the ready line in the
/// course of a sequence of events.
pub open spec fn ready_lines(events: Seq<WorkerEvent>) -> nat
    decreases events.len(),
{
    if events.len() == 0 {
        0
    } else {
        let before = worker_after(events.drop_last());
        ready_lines(events.drop_last()) + if before.response(events.last())
            == WorkerAction::Announce {
            1nat
        } else {
            0nat
        }
    }
}

/// Whatever happens, the worker prints one line at most, the ready line;
/// it prints it only when the bring-up has succeeded, and it has printed
/// exactly that one line when it supervises the context.
pub proof fn lemma_worker_announces_once(events: Seq<WorkerEvent>)
    ensures
        ready_lines(events) <= 1,
        ready_lines(events) == worker_after(events).lines_printed,
        worker_after(events).stage == WorkerStage::AwaitingLauncher ==> ready_lines(events) == 1,
        worker_after(events).stage == WorkerStage::Supervising ==> ready_lines(events) == 1,
        worker_after(events).stage == WorkerStage::ReadingArgs || worker_after(events).stage
            == WorkerStage::AwaitingContext ==> ready_lines(events) == 0,
        ready_lines(events) == 1 ==> events.contains(WorkerEvent::ContextReady),
    decreases events.len(),
{
    if events.len() > 0 {
        let head = events.drop_last();
        lemma_worker_announces_once(head);
        if ready_lines(head) == 1 {
            let at = choose|i: int| 0 <= i < head.len() && head[i] == WorkerEvent::ContextReady;
            assert(events[at] == WorkerEvent::ContextReady);
        } else if ready_lines(events) == 1 {
            assert(events[events.len() - 1] == WorkerEvent::ContextReady);
        }
    }
}

/// The line by which the launcher reports the pid of the worker.
pub fn launcher_pid_line(worker_pid: u32) -> (line: String)
    ensures
        line@ == decimal(worker_pid as nat) + "\n"@,
{
    let mut line = String::new();
    push_decimal(&mut line, worker_pid as u64);
    line.append("\n");
    assert(Seq::<char>::empty() + decimal(worker_pid as nat) =~= decimal(worker_pid as nat));
    line
}

impl ChildLaunchArgs {
    /// The launch arguments as the JSON object that goes to the worker.
    pub fn to_json(&self) -> (json: String)
        ensures
            json@ == "{\"launcher_pid\":"@ + decimal(self.launcher_pid as nat) + "}"@,
    {
        let mut json = String::from_str("{\"launcher_pid\":");
        push_decimal(&mut json, self.launcher_pid as u64);
        json.append("}");
        json
    }
}

impl ChildContextReady {
    /// The ready message as the JSON object that goes to the launcher.
    pub fn to_json(&self) -> (json: &'static str)
        ensures
            json@ == "{}"@,
    {
        "{}"
    }
}

} // verus!
