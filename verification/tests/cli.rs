use fleeting::cli::{
    docker_context_variable, launcher_pid_line, run_user_command, waitpid, worker_argv,
    worker_log_prefix, ChildContextReady, ChildLaunchArgs, Cli, CliError, CommandDidNotExit,
    Launcher, LauncherAction, LauncherEvent, LauncherFailure, LauncherStage, Mode, PidWatch,
    ReadyArm, WhatToRun, Worker, WorkerAction, WorkerEvent, WorkerFailure, WorkerStage,
    EXIT_FAILURE, EXIT_SUCCESS,
};
use fleeting::logging::LoggingConfig;
use fleeting::vm_providers::{Multipass, SomeVmProvider};
use fleeting::worker::WorkerConfig;

fn what(command: Option<&[&str]>, while_pid: Option<u32>, worker: bool) -> WhatToRun {
    WhatToRun { command: command.map(|words| words.iter().map(|w| String::from(*w)).collect()), while_pid, worker }
}

fn cli(what_to_run: WhatToRun, log_file: Option<&str>) -> Cli {
    Cli {
        what_to_run,
        logging: LoggingConfig { quiet: false, verbose: false, log_file: log_file.map(String::from) },
        worker: WorkerConfig {
            vm_provider: SomeVmProvider::Multipass(Multipass { cpus: None, memory: None, disk: None }),
            custom_context_name: None,
            dockerd_version: String::from("*"),
            ssh: false,
        },
    }
}

fn launcher_in_waiting() -> Launcher {
    let (mut launcher, _) = Launcher::begin();
    launcher.advance(LauncherEvent::Done);
    launcher.advance(LauncherEvent::Done);
    launcher.advance(LauncherEvent::Done);
    assert_eq!(launcher.stage, LauncherStage::Waiting);
    launcher
}

fn worker_awaiting_context() -> Worker {
    let (mut worker, _) = Worker::begin();
    assert_eq!(worker.advance(WorkerEvent::ArgsRead), WorkerAction::AwaitContext);
    worker
}

#[test]
fn exit_statuses() {
    assert_eq!(EXIT_SUCCESS, 0);
    assert_eq!(EXIT_FAILURE, 1);
}

#[test]
fn command_alone_selects_the_foreground() {
    assert_eq!(what(Some(&["docker", "run", "img", "echo", "hi"]), None, false).mode(), Some(Mode::Foreground));
    assert_eq!(what(Some(&[]), None, false).mode(), Some(Mode::Foreground));
}

#[test]
fn watched_process_alone_selects_the_launcher() {
    assert_eq!(what(None, Some(4711), false).mode(), Some(Mode::Launcher));
}

#[test]
fn watched_process_with_worker_mark_selects_the_worker() {
    assert_eq!(what(None, Some(4711), true).mode(), Some(Mode::Worker { watch_pid: 4711 }));
}

#[test]
fn every_other_combination_selects_nothing() {
    assert_eq!(what(None, None, false).mode(), None);
    assert_eq!(what(None, None, true).mode(), None);
    assert_eq!(what(Some(&["docker"]), Some(1), false).mode(), None);
    assert_eq!(what(Some(&["docker"]), Some(1), true).mode(), None);
    assert_eq!(what(Some(&["docker"]), None, true).mode(), None);
}

#[test]
fn run_refuses_an_invocation_without_exactly_one_task() {
    assert_eq!(cli(what(None, None, false), None).run(), Err(CliError::Usage));
    assert_eq!(cli(what(Some(&["docker"]), Some(1), false), None).run(), Err(CliError::Usage));
    assert_eq!(cli(what(Some(&["docker"]), None, true), None).run(), Err(CliError::Usage));
    assert_eq!(CliError::Usage.message(), "provide exactly one of COMMAND and '--while'");
}

#[test]
fn run_selects_the_mode() {
    assert_eq!(cli(what(Some(&["docker", "ps"]), None, false), None).run(), Ok(Mode::Foreground));
    assert_eq!(cli(what(None, Some(9), false), None).run(), Ok(Mode::Launcher));
    assert_eq!(cli(what(None, Some(9), true), None).run(), Ok(Mode::Worker { watch_pid: 9 }));
}

#[test]
fn log_file_is_refused_in_the_foreground_only() {
    assert_eq!(cli(what(Some(&["docker", "ps"]), None, false), Some("log")).run(), Err(CliError::LogFileWithoutWhile));
    assert_eq!(CliError::LogFileWithoutWhile.message(), "'--log-file' is only applicable when using '--while'.");
    assert_eq!(cli(what(None, Some(9), false), Some("log")).run(), Ok(Mode::Launcher));
    assert_eq!(cli(what(None, Some(9), true), Some("log")).run(), Ok(Mode::Worker { watch_pid: 9 }));
    assert_eq!(cli(what(None, None, false), Some("log")).run(), Err(CliError::Usage));
}

#[test]
fn exit_code_of_the_command_becomes_the_exit_status() {
    assert_eq!(run_user_command(Some(0)), Ok(0));
    assert_eq!(run_user_command(Some(7)), Ok(7));
    assert_eq!(run_user_command(Some(255)), Ok(255));
}

#[test]
fn exit_code_is_cut_to_eight_bits() {
    assert_eq!(run_user_command(Some(256)), Ok(0));
    assert_eq!(run_user_command(Some(257)), Ok(1));
    assert_eq!(run_user_command(Some(-1)), Ok(255));
    assert_eq!(run_user_command(Some(-256)), Ok(0));
    assert_eq!(run_user_command(Some(-257)), Ok(255));
    assert_eq!(run_user_command(Some(i32::MAX)), Ok(255));
    assert_eq!(run_user_command(Some(i32::MIN)), Ok(0));
    for code in [-1000i32, -129, -128, -1, 0, 1, 127, 128, 1000, 65535, -65536] {
        assert_eq!(run_user_command(Some(code)), Ok(code as u8));
    }
}

#[test]
fn command_without_exit_code_is_an_error() {
    assert_eq!(run_user_command(None), Err(CommandDidNotExit));
    assert_eq!(CommandDidNotExit.message(), "command did not exit");
}

#[test]
fn command_is_told_the_context_by_the_environment() {
    assert_eq!(docker_context_variable(), "DOCKER_CONTEXT");
}

#[test]
fn watched_process_is_looked_at_every_second() {
    assert_eq!(waitpid(true), PidWatch::Sleep(1000));
    assert_eq!(waitpid(false), PidWatch::Gone);
}

#[test]
fn worker_gets_the_launchers_arguments_and_the_mark() {
    let argv = vec![String::from("fleeting"), String::from("multipass"), String::from("--while"), String::from("4711")];
    assert_eq!(worker_argv(&argv), vec!["fleeting", "multipass", "--while", "4711", "--worker"]);
    assert_eq!(worker_argv(&Vec::new()), vec!["--worker"]);
}

#[test]
fn prefix_of_the_workers_log_file() {
    assert_eq!(worker_log_prefix(4711, None), "fleeting[4711]: ");
    assert_eq!(worker_log_prefix(4711, Some("greeter")), "fleeting[4711/greeter]: ");
}

#[test]
fn pid_line_is_the_number_and_a_line_feed() {
    let line = launcher_pid_line(4711);
    assert_eq!(line, "4711\n");
    let (digits, end) = line.split_at(line.len() - 1);
    assert!(!digits.is_empty() && digits.chars().all(|c| c.is_ascii_digit()));
    assert_eq!(end, "\n");
    assert_eq!(launcher_pid_line(0), "0\n");
    assert_eq!(launcher_pid_line(u32::MAX), "4294967295\n");
}

#[test]
fn messages_between_launcher_and_worker_are_json() {
    let args = ChildLaunchArgs { launcher_pid: 4711 };
    assert_eq!(args.to_json(), "{\"launcher_pid\":4711}");
    let parsed: serde_json::Value = serde_json::from_str(&args.to_json()).unwrap();
    assert_eq!(parsed.get("launcher_pid").and_then(|v| v.as_u64()), Some(4711));
    assert_eq!(parsed.as_object().unwrap().len(), 1);
    assert_eq!(ChildContextReady {}.to_json(), "{}");
    let parsed: serde_json::Value = serde_json::from_str(ChildContextReady {}.to_json()).unwrap();
    assert_eq!(parsed, serde_json::Value::Object(serde_json::Map::new()));
    assert!(!ChildContextReady {}.to_json().contains('\n'));
}

#[test]
fn launcher_reports_the_pid_before_it_waits() {
    let (mut launcher, first) = Launcher::begin();
    assert_eq!(first, LauncherAction::SpawnWorker);
    assert_eq!(launcher.lines_printed, 0);
    assert_eq!(launcher.advance(LauncherEvent::Done), LauncherAction::PrintPid);
    assert_eq!(launcher.lines_printed, 1);
    assert_eq!(launcher.advance(LauncherEvent::Done), LauncherAction::SendLaunchArgs);
    assert_eq!(launcher.advance(LauncherEvent::Done), LauncherAction::AwaitReady);
    assert_eq!(launcher.stage, LauncherStage::Waiting);
    assert_eq!(launcher.lines_printed, 1);
}

#[test]
fn launcher_exits_with_success_on_the_ready_line() {
    let mut launcher = launcher_in_waiting();
    let action = launcher.advance(LauncherEvent::Ready(ReadyArm::Line { valid: true }));
    assert_eq!(action, LauncherAction::Exit(0));
    assert_eq!(launcher.lines_printed, 1);
    assert_eq!(launcher.current_action(), LauncherAction::Exit(0));
}

#[test]
fn launcher_fails_when_the_workers_log_ends() {
    let mut launcher = launcher_in_waiting();
    assert_eq!(launcher.advance(LauncherEvent::LogsEnded), LauncherAction::Exit(1));
    assert_eq!(launcher.stage, LauncherStage::Exited(EXIT_FAILURE));
}

#[test]
fn launcher_takes_the_end_of_the_log_before_the_ready_line() {
    assert_eq!(Launcher::race(Some(LauncherEvent::LogsEnded), Some(ReadyArm::Line { valid: true })), Some(LauncherEvent::LogsEnded));
    assert_eq!(Launcher::race(None, Some(ReadyArm::Closed)), Some(LauncherEvent::Ready(ReadyArm::Closed)));
    assert_eq!(Launcher::race(Some(LauncherEvent::LogsFailed), None), Some(LauncherEvent::LogsFailed));
    assert_eq!(Launcher::race(None, None), None);
}

#[test]
fn launcher_fails_on_a_line_that_is_not_the_ready_message() {
    let mut launcher = launcher_in_waiting();
    let action = launcher.advance(LauncherEvent::Ready(ReadyArm::Line { valid: false }));
    assert_eq!(action, LauncherAction::Fail(LauncherFailure::DecodingWorkerMessage));
    assert_eq!(LauncherFailure::DecodingWorkerMessage.message(), "decoding worker message");
}

#[test]
fn launcher_failures_while_it_waits() {
    let mut launcher = launcher_in_waiting();
    assert_eq!(launcher.advance(LauncherEvent::LogsFailed), LauncherAction::Fail(LauncherFailure::ReadingWorkerLogs));
    let mut launcher = launcher_in_waiting();
    assert_eq!(launcher.advance(LauncherEvent::Ready(ReadyArm::ReadFailed)), LauncherAction::Fail(LauncherFailure::ReadingReadySignal));
    assert_eq!(LauncherFailure::Io.message(), "starting the worker");
    assert_eq!(LauncherFailure::ReadingWorkerLogs.message(), "reading worker logs");
    assert_eq!(LauncherFailure::ReadingReadySignal.message(), "reading ready signal");
}

#[test]
fn launcher_fails_when_its_own_work_fails() {
    let (mut launcher, _) = Launcher::begin();
    assert_eq!(launcher.advance(LauncherEvent::Failed), LauncherAction::Fail(LauncherFailure::Io));
    assert_eq!(launcher.lines_printed, 0);
    let (mut launcher, _) = Launcher::begin();
    launcher.advance(LauncherEvent::Done);
    launcher.advance(LauncherEvent::Done);
    assert_eq!(launcher.advance(LauncherEvent::Failed), LauncherAction::Fail(LauncherFailure::Io));
}

#[test]
fn launcher_passes_over_events_that_do_not_belong_to_its_stage() {
    let (mut launcher, _) = Launcher::begin();
    assert_eq!(launcher.advance(LauncherEvent::LogsEnded), LauncherAction::Continue);
    assert_eq!(launcher.advance(LauncherEvent::Ready(ReadyArm::Line { valid: true })), LauncherAction::Continue);
    assert_eq!(launcher.stage, LauncherStage::Spawning);
    let mut launcher = launcher_in_waiting();
    assert_eq!(launcher.advance(LauncherEvent::Done), LauncherAction::Continue);
    assert_eq!(launcher.advance(LauncherEvent::Failed), LauncherAction::Continue);
    launcher.advance(LauncherEvent::LogsEnded);
    assert_eq!(launcher.advance(LauncherEvent::Ready(ReadyArm::Line { valid: true })), LauncherAction::Continue);
    assert_eq!(launcher.stage, LauncherStage::Exited(1));
}

#[test]
fn launcher_prints_the_pid_once_whatever_happens() {
    let events = [
        LauncherEvent::Done,
        LauncherEvent::Failed,
        LauncherEvent::LogsEnded,
        LauncherEvent::LogsFailed,
        LauncherEvent::Ready(ReadyArm::Line { valid: true }),
        LauncherEvent::Ready(ReadyArm::Closed),
    ];
    // every sequence of four events
    for code in 0..(6usize.pow(4)) {
        let (mut launcher, _) = Launcher::begin();
        let mut printed: u8 = 0;
        let mut rest = code;
        for _ in 0..4 {
            let before_waiting = launcher.stage != LauncherStage::Waiting;
            let action = launcher.advance(events[rest % 6]);
            rest /= 6;
            if action == LauncherAction::PrintPid {
                assert!(before_waiting);
                printed += 1;
            }
            if launcher.stage == LauncherStage::Waiting {
                assert_eq!(printed, 1);
            }
        }
        assert!(printed <= 1);
        assert_eq!(printed, launcher.lines_printed);
    }
}

#[test]
fn worker_announces_the_context_and_supervises_it() {
    let (mut worker, first) = Worker::begin();
    assert_eq!(first, WorkerAction::ReadLaunchArgs);
    assert_eq!(worker.advance(WorkerEvent::ArgsRead), WorkerAction::AwaitContext);
    assert_eq!(worker.lines_printed, 0);
    assert_eq!(worker.advance(WorkerEvent::ContextReady), WorkerAction::Announce);
    assert_eq!(worker.lines_printed, 1);
    assert_eq!(worker.stage, WorkerStage::AwaitingLauncher);
    assert_eq!(worker.advance(WorkerEvent::LauncherExited), WorkerAction::Supervise);
    assert_eq!(worker.stage, WorkerStage::Supervising);
    assert_eq!(worker.advance(WorkerEvent::WatchedExited), WorkerAction::Exit(0));
    assert_eq!(worker.lines_printed, 1);
}

#[test]
fn worker_ends_quietly_when_a_process_dies_before_the_context_is_ready() {
    let mut worker = worker_awaiting_context();
    assert_eq!(worker.advance(WorkerEvent::LauncherExited), WorkerAction::Exit(0));
    assert_eq!(worker.lines_printed, 0);
    let mut worker = worker_awaiting_context();
    assert_eq!(worker.advance(WorkerEvent::WatchedExited), WorkerAction::Exit(0));
    assert_eq!(worker.lines_printed, 0);
    assert_eq!(worker.advance(WorkerEvent::ContextReady), WorkerAction::Continue);
    assert_eq!(worker.lines_printed, 0);
}

#[test]
fn worker_fails_with_the_bring_up() {
    let mut worker = worker_awaiting_context();
    assert_eq!(worker.advance(WorkerEvent::ContextFailed), WorkerAction::Fail(WorkerFailure::BringUp));
    assert_eq!(worker.lines_printed, 0);
    assert_eq!(WorkerFailure::BringUp.message(), "docker context could not be established");
}

#[test]
fn worker_fails_with_the_published_context() {
    let mut worker = worker_awaiting_context();
    worker.advance(WorkerEvent::ContextReady);
    worker.advance(WorkerEvent::LauncherExited);
    assert_eq!(worker.advance(WorkerEvent::ContextFailed), WorkerAction::Fail(WorkerFailure::Context));
    assert_eq!(worker.stage, WorkerStage::Failed(WorkerFailure::Context));
    assert_eq!(WorkerFailure::Context.message(), "docker context failed");
}

#[test]
fn worker_fails_without_launch_arguments() {
    let (mut worker, _) = Worker::begin();
    assert_eq!(worker.advance(WorkerEvent::ArgsInvalid), WorkerAction::Fail(WorkerFailure::DecodingLaunchArgs));
    assert_eq!(WorkerFailure::DecodingLaunchArgs.message(), "decoding launch args");
}

#[test]
fn worker_keeps_supervising_after_the_launcher_is_gone() {
    let mut worker = worker_awaiting_context();
    worker.advance(WorkerEvent::ContextReady);
    worker.advance(WorkerEvent::LauncherExited);
    assert_eq!(worker.advance(WorkerEvent::LauncherExited), WorkerAction::Continue);
    assert_eq!(worker.advance(WorkerEvent::ContextReady), WorkerAction::Continue);
    assert_eq!(worker.stage, WorkerStage::Supervising);
    assert_eq!(worker.current_action(), WorkerAction::Supervise);
}

#[test]
fn worker_prints_the_ready_line_once_whatever_happens() {
    let events = [
        WorkerEvent::ArgsRead,
        WorkerEvent::ArgsInvalid,
        WorkerEvent::ContextReady,
        WorkerEvent::ContextFailed,
        WorkerEvent::LauncherExited,
        WorkerEvent::WatchedExited,
    ];
    // every sequence of five events
    for code in 0..(6usize.pow(5)) {
        let (mut worker, _) = Worker::begin();
        let mut printed: u8 = 0;
        let mut rest = code;
        for _ in 0..5 {
            let event = events[rest % 6];
            rest /= 6;
            if worker.advance(event) == WorkerAction::Announce {
                assert_eq!(event, WorkerEvent::ContextReady);
                printed += 1;
            }
            if worker.stage == WorkerStage::Supervising {
                assert_eq!(printed, 1);
            }
        }
        assert!(printed <= 1);
        assert_eq!(printed, worker.lines_printed);
    }
}

#[test]
fn launcher_waits_for_the_end_of_the_log_when_the_output_ends_without_a_line() {
    let mut launcher = launcher_in_waiting();
    assert_eq!(launcher.advance(LauncherEvent::Ready(ReadyArm::Closed)), LauncherAction::Continue);
    assert_eq!(launcher.stage, LauncherStage::Waiting);
    assert_eq!(launcher.advance(LauncherEvent::LogsEnded), LauncherAction::Exit(1));
}
