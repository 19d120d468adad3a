use fleeting::logging::Level;
use fleeting::ssh::{
    exec_passthru, handle_data_msg, passthru_error, read_file, read_file_modes, ChannelMsg,
    ExecError, ExecSession, StreamMode,
};

fn log_mode(prefix: &str) -> StreamMode<'_> {
    StreamMode::Log { level: Level::Debug, prefix }
}

fn texts(lines: &[fleeting::ssh::LogLine]) -> Vec<&str> {
    lines.iter().map(|line| line.text.as_str()).collect()
}

#[test]
fn captured_stream_keeps_every_byte() {
    let mut buf = b"ab".to_vec();
    let drained = handle_data_msg(&mut buf, &StreamMode::Capture, &b"c\nd\n".to_vec());
    assert_eq!(buf, b"abc\nd\n");
    assert!(drained.lines.is_empty());
    assert!(!drained.invalid);
}

#[test]
fn logged_stream_gives_up_complete_lines() {
    let mut buf = Vec::new();
    let drained = handle_data_msg(&mut buf, &log_mode("install-dockerd"), &b"one\ntwo\nthr".to_vec());
    assert_eq!(texts(&drained.lines), vec!["install-dockerd: one", "install-dockerd: two"]);
    assert!(drained.lines.iter().all(|line| line.level == Level::Debug));
    assert!(!drained.invalid);
    assert_eq!(buf, b"thr");
}

#[test]
fn line_that_comes_in_pieces_is_logged_when_it_is_complete() {
    let mode = log_mode("dockerd");
    let mut buf = Vec::new();
    assert!(handle_data_msg(&mut buf, &mode, &b"star".to_vec()).lines.is_empty());
    assert_eq!(buf, b"star");
    assert!(handle_data_msg(&mut buf, &mode, &b"ting".to_vec()).lines.is_empty());
    let drained = handle_data_msg(&mut buf, &mode, &b" up\nnext".to_vec());
    assert_eq!(texts(&drained.lines), vec!["dockerd: starting up"]);
    assert_eq!(buf, b"next");
    let drained = handle_data_msg(&mut buf, &mode, &b"\n".to_vec());
    assert_eq!(texts(&drained.lines), vec!["dockerd: next"]);
    assert!(buf.is_empty());
}

#[test]
fn empty_lines_are_logged_too() {
    let mut buf = Vec::new();
    let drained = handle_data_msg(&mut buf, &log_mode("p"), &b"\n\na\n".to_vec());
    assert_eq!(texts(&drained.lines), vec!["p: ", "p: ", "p: a"]);
    assert!(buf.is_empty());
}

#[test]
fn data_without_a_line_feed_stays_in_the_buffer() {
    let mut buf = Vec::new();
    let drained = handle_data_msg(&mut buf, &log_mode("p"), &Vec::new());
    assert!(drained.lines.is_empty());
    assert!(buf.is_empty());
    let drained = handle_data_msg(&mut buf, &log_mode("p"), &b"no end".to_vec());
    assert!(drained.lines.is_empty());
    assert_eq!(buf, b"no end");
}

#[test]
fn carriage_return_belongs_to_the_line() {
    let mut buf = Vec::new();
    let drained = handle_data_msg(&mut buf, &log_mode("p"), &b"dos\r\n".to_vec());
    assert_eq!(texts(&drained.lines), vec!["p: dos\r"]);
}

#[test]
fn line_in_utf8_is_decoded() {
    let mut buf = Vec::new();
    let drained = handle_data_msg(&mut buf, &log_mode("p"), &"héllo → wörld\n".as_bytes().to_vec());
    assert_eq!(texts(&drained.lines), vec!["p: héllo → wörld"]);
}

#[test]
fn line_that_is_not_utf8_stops_the_logging() {
    let mut buf = Vec::new();
    let drained = handle_data_msg(&mut buf, &log_mode("p"), &b"good\nb\xffd\nlater\nrest".to_vec());
    assert_eq!(texts(&drained.lines), vec!["p: good"]);
    assert!(drained.invalid);
    assert_eq!(buf, b"b\xffd\nlater\nrest");
}

#[test]
fn incomplete_line_that_is_not_utf8_is_no_error_yet() {
    let mut buf = Vec::new();
    let drained = handle_data_msg(&mut buf, &log_mode("p"), &b"ok\n\xc3".to_vec());
    assert_eq!(texts(&drained.lines), vec!["p: ok"]);
    assert!(!drained.invalid);
    assert_eq!(buf, b"\xc3");
    let drained = handle_data_msg(&mut buf, &log_mode("p"), &b"\xa9\n".to_vec());
    assert_eq!(texts(&drained.lines), vec!["p: é"]);
}

#[test]
fn session_sorts_the_output_by_stream() {
    let mut session = ExecSession::new();
    let stdout = StreamMode::Capture;
    let stderr = log_mode("uname -m");
    let drained = session.handle(&ChannelMsg::Data(b"aarch64\n".to_vec()), &stdout, &stderr);
    assert!(drained.lines.is_empty());
    let drained = session.handle(&ChannelMsg::ExtendedData { data: b"warning\n".to_vec(), ext: 1 }, &stdout, &stderr);
    assert_eq!(texts(&drained.lines), vec!["uname -m: warning"]);
    let drained = session.handle(&ChannelMsg::ExtendedData { data: b"ignored\n".to_vec(), ext: 2 }, &stdout, &stderr);
    assert!(drained.lines.is_empty());
    session.handle(&ChannelMsg::Other, &stdout, &stderr);
    assert_eq!(session.stdout_buf, b"aarch64\n");
    assert!(session.stderr_buf.is_empty());
    assert_eq!(session.code, None);
}

#[test]
fn output_after_the_exit_status_is_still_taken() {
    let mut session = ExecSession::new();
    let capture = StreamMode::Capture;
    session.handle(&ChannelMsg::Data(b"first ".to_vec()), &capture, &capture);
    session.handle(&ChannelMsg::ExitStatus(0), &capture, &capture);
    session.handle(&ChannelMsg::Data(b"second".to_vec()), &capture, &capture);
    session.handle(&ChannelMsg::ExtendedData { data: b"err".to_vec(), ext: 1 }, &capture, &capture);
    let outcome = session.finish(true, &capture, &capture).unwrap();
    assert_eq!(outcome.code, 0);
    assert_eq!(outcome.stdout.unwrap(), b"first second");
    assert_eq!(outcome.stderr.unwrap(), b"err");
}

#[test]
fn outcome_holds_only_the_captured_streams() {
    let mut session = ExecSession::new();
    let capture = StreamMode::Capture;
    let log = log_mode("cat /fleeting/otp");
    session.handle(&ChannelMsg::Data(b"token\n".to_vec()), &capture, &log);
    session.handle(&ChannelMsg::ExtendedData { data: b"partial".to_vec(), ext: 1 }, &capture, &log);
    session.handle(&ChannelMsg::ExitStatus(0), &capture, &log);
    let outcome = session.finish(true, &capture, &log).unwrap();
    assert_eq!(outcome.stdout.unwrap(), b"token\n");
    assert!(outcome.stderr.is_none());
}

#[test]
fn channel_that_ends_without_exit_status_is_an_error() {
    let mut session = ExecSession::new();
    let capture = StreamMode::Capture;
    session.handle(&ChannelMsg::Data(b"x".to_vec()), &capture, &capture);
    let error = session.finish(false, &capture, &capture).err().unwrap();
    assert_eq!(error, ExecError::NoExitStatus);
    assert_eq!(error.message(), "channel ended without ExitStatus");
}

#[test]
fn exit_status_other_than_zero_is_an_error_on_request() {
    let capture = StreamMode::Capture;
    let mut session = ExecSession::new();
    session.handle(&ChannelMsg::ExitStatus(7), &capture, &capture);
    let error = session.finish(true, &capture, &capture).err().unwrap();
    assert_eq!(error, ExecError::NonZero(7));
    assert_eq!(error.message(), "remote command returned 7");
    let mut session = ExecSession::new();
    session.handle(&ChannelMsg::ExitStatus(7), &capture, &capture);
    assert_eq!(session.finish(false, &capture, &capture).unwrap().code, 7);
}

#[test]
fn last_exit_status_counts() {
    let capture = StreamMode::Capture;
    let mut session = ExecSession::new();
    session.handle(&ChannelMsg::ExitStatus(1), &capture, &capture);
    session.handle(&ChannelMsg::ExitStatus(0), &capture, &capture);
    assert_eq!(session.finish(true, &capture, &capture).unwrap().code, 0);
}

#[test]
fn passed_through_command_logs_both_streams_under_its_context() {
    let (stdout, stderr) = exec_passthru("dockerd");
    assert!(matches!(stdout, StreamMode::Log { level: Level::Debug, prefix: "dockerd" }));
    assert!(matches!(stderr, StreamMode::Log { level: Level::Debug, prefix: "dockerd" }));
    assert!(!stdout.is_capture());
    assert_eq!(passthru_error("dockerd", &ExecError::NonZero(7)), "dockerd: remote command returned 7");
}

#[test]
fn file_is_read_with_cat() {
    let command = read_file("/fleeting/otp");
    assert_eq!(command, "cat /fleeting/otp");
    let (stdout, stderr) = read_file_modes(&command);
    assert!(stdout.is_capture());
    assert!(matches!(stderr, StreamMode::Log { level: Level::Debug, prefix: "cat /fleeting/otp" }));
}

#[test]
fn invalid_line_message() {
    assert_eq!(ExecError::InvalidUtf8.message(), "remote command wrote a line that is not valid utf-8");
}

#[test]
fn file_is_written_with_cat() {
    assert_eq!(fleeting::ssh::write_file("/tmp/ca.pem"), "cat > /tmp/ca.pem");
}

#[test]
fn log_does_not_depend_on_the_pieces_in_which_the_bytes_come() {
    let all = b"first line\nsecond\n\nfourth \xc3\xa9 line\nunfinished".to_vec();
    let mode = log_mode("p");
    let mut buf = Vec::new();
    let at_once = handle_data_msg(&mut buf, &mode, &all);
    let expected: Vec<String> = at_once.lines.iter().map(|line| line.text.clone()).collect();
    assert_eq!(expected.len(), 4);
    for first in 0..=all.len() {
        for second in first..=all.len() {
            let mut pieces = Vec::new();
            let mut piecewise = Vec::new();
            for piece in [&all[..first], &all[first..second], &all[second..]] {
                let drained = handle_data_msg(&mut piecewise, &mode, &piece.to_vec());
                assert!(!drained.invalid);
                pieces.extend(drained.lines.into_iter().map(|line| line.text));
            }
            assert_eq!(pieces, expected);
            assert_eq!(piecewise, buf);
        }
    }
}

#[test]
fn command_runs_to_completion_over_its_messages() {
    let messages = vec![
        ChannelMsg::Data(b"aarch".to_vec()),
        ChannelMsg::ExtendedData { data: b"warn".to_vec(), ext: 1 },
        ChannelMsg::Other,
        ChannelMsg::Data(b"64\n".to_vec()),
        ChannelMsg::ExtendedData { data: b"ing\nmore\nhalf".to_vec(), ext: 1 },
        ChannelMsg::ExitStatus(0),
        ChannelMsg::ExtendedData { data: b"skipped\n".to_vec(), ext: 7 },
    ];
    let log = StreamMode::Log { level: Level::Warn, prefix: "uname -m" };
    let completion = fleeting::ssh::exec_to_completion(&messages, true, &StreamMode::Capture, &log);
    assert_eq!(texts(&completion.lines), vec!["uname -m: warning", "uname -m: more"]);
    assert!(completion.lines.iter().all(|line| line.level == Level::Warn));
    let outcome = completion.outcome.ok().unwrap();
    assert_eq!(outcome.code, 0);
    assert_eq!(outcome.stdout.unwrap(), b"aarch64\n");
    assert!(outcome.stderr.is_none());
}

#[test]
fn completed_command_logs_the_lines_of_both_streams_in_the_order_of_the_messages() {
    let messages = vec![
        ChannelMsg::Data(b"out 1\nout".to_vec()),
        ChannelMsg::ExtendedData { data: b"err 1\n".to_vec(), ext: 1 },
        ChannelMsg::Data(b" 2\n".to_vec()),
        ChannelMsg::ExitStatus(3),
    ];
    let stdout = StreamMode::Log { level: Level::Debug, prefix: "o" };
    let stderr = StreamMode::Log { level: Level::Error, prefix: "e" };
    let completion = fleeting::ssh::exec_to_completion(&messages, false, &stdout, &stderr);
    assert_eq!(texts(&completion.lines), vec!["o: out 1", "e: err 1", "o: out 2"]);
    let levels: Vec<Level> = completion.lines.iter().map(|line| line.level).collect();
    assert_eq!(levels, vec![Level::Debug, Level::Error, Level::Debug]);
    let outcome = completion.outcome.ok().unwrap();
    assert_eq!(outcome.code, 3);
    assert!(outcome.stdout.is_none() && outcome.stderr.is_none());
}

#[test]
fn completed_command_fails_as_its_session_would() {
    let capture = StreamMode::Capture;
    let none = fleeting::ssh::exec_to_completion(&vec![ChannelMsg::Data(b"x".to_vec())], true, &capture, &capture);
    assert_eq!(none.outcome.err(), Some(ExecError::NoExitStatus));
    let seven = fleeting::ssh::exec_to_completion(&vec![ChannelMsg::ExitStatus(7)], true, &capture, &capture);
    assert_eq!(seven.outcome.err(), Some(ExecError::NonZero(7)));
    let empty = fleeting::ssh::exec_to_completion(&Vec::new(), false, &capture, &capture);
    assert_eq!(empty.outcome.err(), Some(ExecError::NoExitStatus));
}

#[test]
fn completed_command_stops_at_a_line_that_is_not_utf8() {
    let messages = vec![
        ChannelMsg::Data(b"fine\n\xff\n".to_vec()),
        ChannelMsg::Data(b"never logged\n".to_vec()),
        ChannelMsg::ExitStatus(0),
    ];
    let log = log_mode("p");
    let completion = fleeting::ssh::exec_to_completion(&messages, true, &log, &log);
    assert_eq!(texts(&completion.lines), vec!["p: fine"]);
    assert_eq!(completion.outcome.err(), Some(ExecError::InvalidUtf8));
}
