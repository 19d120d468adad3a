//! The secure channel's command execution: what to make of the messages
//! that a command channel delivers.
//!
//! The session and its channels are kept by the program around this library.
//! It feeds each message of a channel to an [`ExecSession`], logs the lines
//! that come back, and asks for the outcome when the channel has ended.

use crate::logging::Level;
use crate::text::{decimal, push_decimal, string_from_utf8};
use vstd::prelude::*;
use vstd::string::*;
use vstd::utf8::*;

verus! {

/// What is done with one output stream of a remote command.
#[derive(Copy, Clone)]
pub enum StreamMode<'a> {
    /// Collect the bytes and return them with the result.
    Capture,
    /// Log every complete line at `level`, with `prefix` before it.
    Log { level: Level, prefix: &'a str },
}

/// How a remote command ended.
pub struct ExecOutcome {
    /// The exit code of the command.
    pub code: u32,
    /// `Some(_)` if stdout is configured to `StreamMode::Capture`.
    pub stdout: Option<Vec<u8>>,
    /// `Some(_)` if stderr is configured to `StreamMode::Capture`.
    pub stderr: Option<Vec<u8>>,
}

/// A message of a command channel.
pub enum ChannelMsg {
    /// Bytes of the command's standard output.
    Data(Vec<u8>),
    /// Bytes of another stream; number 1 is the standard error.
    ExtendedData { data: Vec<u8>, ext: u32 },
    /// The command has exited with this status.
    ExitStatus(u32),
    /// Any other message.
    Other,
}

/// Why the execution of a remote command failed.
#[derive(Clone, Copy, Debug, PartialEq, Eq, Structural)]
pub enum ExecError {
    /// A line to be logged is not UTF-8.
    InvalidUtf8,
    /// The channel ended and no exit status had come.
    NoExitStatus,
    /// The command exited with this status, which is not zero.
    NonZero(u32),
}

/// A line to be logged.
pub struct LogLine {
    pub level: Level,
    pub text: String,
}

/// What a stream's buffer gave up for logging.
pub struct Drained {
    /// The lines to log, in order.
    pub lines: Vec<LogLine>,
    /// Whether a line that is not UTF-8 stopped the logging.
    pub invalid: bool,
}

/// The messages of one command, as far as they have come.
pub struct ExecSession {
    pub code: Option<u32>,
    pub stdout_buf: Vec<u8>,
    pub stderr_buf: Vec<u8>,
}

/// The byte that ends a line.
pub const LINE_FEED: u8 = 10;

/// Position of the first line feed at or after `from`; the length of
/// `bytes` if there is none.
pub open spec fn line_end(bytes: Seq<u8>, from: int) -> int
    decreases bytes.len() - from,
{
    if from < 0 || from >= bytes.len() {
        bytes.len() as int
    } else if bytes[from] == LINE_FEED {
        from
    } else {
        line_end(bytes, from + 1)
    }
}

/// The text of a logged line.
pub open spec fn log_text(prefix: Seq<char>, line: Seq<u8>) -> Seq<char> {
    prefix + ": "@ + decode_utf8(line)
}

/// The complete lines of `bytes` from position `from` on, as they are
/// logged: each line that ends with a line feed, up to the first one that is
/// not UTF-8.
pub open spec fn logged_lines(bytes: Seq<u8>, from: int, prefix: Seq<char>) -> Seq<Seq<char>>
    decreases bytes.len() - from,
{
    let end = line_end(bytes, from);
    if from < 0 || end < from || end >= bytes.len() || !valid_utf8(bytes.subrange(from, end)) {
        Seq::empty()
    } else {
        seq![log_text(prefix, bytes.subrange(from, end))] + logged_lines(bytes, end + 1, prefix)
    }
}

/// Position from which the bytes stay in the buffer: the beginning of the
/// incomplete last line, or of the first line that is not UTF-8.
pub open spec fn kept_from(bytes: Seq<u8>, from: int) -> int
    decreases bytes.len() - from,
{
    let end = line_end(bytes, from);
    if from < 0 || end < from || end >= bytes.len() || !valid_utf8(bytes.subrange(from, end)) {
        from
    } else {
        kept_from(bytes, end + 1)
    }
}

/// Whether a complete line from position `from` on is not UTF-8.
pub open spec fn has_invalid_line(bytes: Seq<u8>, from: int) -> bool
    decreases bytes.len() - from,
{
    let end = line_end(bytes, from);
    if from < 0 || end < from || end >= bytes.len() {
        false
    } else if !valid_utf8(bytes.subrange(from, end)) {
        true
    } else {
        has_invalid_line(bytes, end + 1)
    }
}

/// The texts of a sequence of lines.
pub open spec fn line_texts(lines: Seq<LogLine>) -> Seq<Seq<char>> {
    Seq::new(lines.len(), |i: int| lines[i].text@)
}

impl<'a> StreamMode<'a> {
    /// Whether the stream is captured.
    pub fn is_capture(&self) -> (r: bool)
        ensures
            r == (*self is Capture),
    {
        match self {
            StreamMode::Capture => true,
            StreamMode::Log { .. } => false,
        }
    }
}

/// Copies `bytes[from..to]`.
fn copy_range(bytes: &Vec<u8>, from: usize, to: usize) -> (out: Vec<u8>)
    requires
        from <= to <= bytes.len(),
    ensures
        out@ == bytes@.subrange(from as int, to as int),
{
    let mut out: Vec<u8> = Vec::new();
    let mut i: usize = from;
    while i < to
        invariant
            from <= i <= to <= bytes.len(),
            out@ == bytes@.subrange(from as int, i as int),
        decreases to - i,
    {
        out.push(bytes[i]);
        assert(bytes@.subrange(from as int, i + 1) =~= bytes@.subrange(from as int, i as int).push(
            bytes@[i as int],
        ));
        i += 1;
    }
    out
}

/// Appends `data` to `buf`.
fn append_bytes(buf: &mut Vec<u8>, data: &Vec<u8>)
    ensures
        final(buf)@ == old(buf)@ + data@,
{
    let mut i: usize = 0;
    assert(old(buf)@ + data@.take(0) =~= old(buf)@);
    while i < data.len()
        invariant
            i <= data.len(),
            buf@ == old(buf)@ + data@.take(i as int),
        decreases data.len() - i,
    {
        buf.push(data[i]);
        assert(old(buf)@ + data@.take(i + 1) =~= (old(buf)@ + data@.take(i as int)).push(
            data@[i as int],
        ));
        i += 1;
    }
    assert(data@.take(data.len() as int) =~= data@);
}

/// Finds the end of the line that begins at `from`.
fn find_line_end(bytes: &Vec<u8>, from: usize) -> (end: usize)
    requires
        from <= bytes.len(),
    ensures
        end == line_end(bytes@, from as int),
        from <= end <= bytes.len(),
{
    let mut at: usize = from;
    while at < bytes.len() && bytes[at] != LINE_FEED
        invariant
            from <= at <= bytes.len(),
            line_end(bytes@, from as int) == line_end(bytes@, at as int),
        decreases bytes.len() - at,
    {
        at += 1;
    }
    at
}

/// Takes the bytes that a stream has delivered.
///
/// The bytes are added to the stream's buffer. A captured stream keeps them
/// all. A logged stream gives up every complete line, to be logged in order
/// with the prefix before it, and keeps the incomplete rest; a line that is
/// not UTF-8 stops this, stays in the buffer with what follows it, and is
/// reported.
pub fn handle_data_msg(buf: &mut Vec<u8>, mode: &StreamMode, data: &Vec<u8>) -> (drained: Drained)
    ensures
        ({
            let all = old(buf)@ + data@;
            match *mode {
                StreamMode::Capture => final(buf)@ == all && drained.lines@.len() == 0
                    && !drained.invalid,
                StreamMode::Log { level, prefix } => {
                    &&& line_texts(drained.lines@) == logged_lines(all, 0, prefix@)
                    &&& forall|i: int|
                        0 <= i < drained.lines@.len() ==> (#[trigger] drained.lines@[i]).level
                            == level
                    &&& final(buf)@ == all.skip(kept_from(all, 0))
                    &&& drained.invalid == has_invalid_line(all, 0)
                },
            }
        }),
{
    append_bytes(buf, data);
    let mut lines: Vec<LogLine> = Vec::new();
    match mode {
        StreamMode::Capture => Drained { lines, invalid: false },
        StreamMode::Log { level, prefix } => {
            let ghost all = buf@;
            let n = buf.len();
            let mut from: usize = 0;
            let mut invalid = false;
            assert(line_texts(lines@) =~= Seq::<Seq<char>>::empty());
            assert(Seq::<Seq<char>>::empty() + logged_lines(all, 0, prefix@) =~= logged_lines(
                all,
                0,
                prefix@,
            ));
            loop
                invariant_except_break
                    !invalid,
                invariant
                    buf@ == all,
                    n == buf.len(),
                    from <= n,
                    logged_lines(all, 0, prefix@) == line_texts(lines@) + logged_lines(
                        all,
                        from as int,
                        prefix@,
                    ),
                    kept_from(all, 0) == kept_from(all, from as int),
                    has_invalid_line(all, 0) == has_invalid_line(all, from as int),
                    forall|i: int| 0 <= i < lines@.len() ==> (#[trigger] lines@[i]).level == *level,
                ensures
                    buf@ == all,
                    from <= n == buf.len(),
                    logged_lines(all, 0, prefix@) == line_texts(lines@),
                    kept_from(all, 0) == from,
                    has_invalid_line(all, 0) == invalid,
                    forall|i: int| 0 <= i < lines@.len() ==> (#[trigger] lines@[i]).level == *level,
                decreases n - from,
            {
                let end = find_line_end(buf, from);
                if end >= n {
                    assert(line_texts(lines@) + Seq::<Seq<char>>::empty() =~= line_texts(lines@));
                    break ;
                }
                match string_from_utf8(copy_range(buf, from, end)) {
                    None => {
                        invalid = true;
                        assert(line_texts(lines@) + Seq::<Seq<char>>::empty() =~= line_texts(
                            lines@,
                        ));
                        break ;
                    },
                    Some(decoded) => {
                        let mut text = String::from_str(prefix);
                        text.append(": ");
                        text.append(decoded.as_str());
                        let ghost before = line_texts(lines@);
                        let ghost line = log_text(prefix@, all.subrange(from as int, end as int));
                        lines.push(LogLine { level: *level, text });
                        proof {
                            assert(line_texts(lines@) =~= before.push(line));
                            assert(before + (seq![line] + logged_lines(all, end + 1, prefix@))
                                =~= before.push(line) + logged_lines(all, end + 1, prefix@));
                        }
                        from = end + 1;
                    },
                }
            }
            let rest = copy_range(buf, from, n);
            *buf = rest;
            assert(all.subrange(from as int, n as int) =~= all.skip(from as int));
            Drained { lines, invalid }
        },
    }
}

impl ExecSession {
    /// The session of a command that has just been started.
    pub fn new() -> (session: ExecSession)
        ensures
            session.code is None,
            session.stdout_buf@.len() == 0,
            session.stderr_buf@.len() == 0,
    {
        ExecSession { code: None, stdout_buf: Vec::new(), stderr_buf: Vec::new() }
    }

    /// Takes one message of the channel.
    ///
    /// Output goes to the buffer of its stream, as [`handle_data_msg`] says;
    /// the exit status is noted, and the channel is read on, for output may
    /// still follow; anything else is passed over.
    pub fn handle(
        &mut self,
        msg: &ChannelMsg,
        stdout_mode: &StreamMode,
        stderr_mode: &StreamMode,
    ) -> (drained: Drained)
        ensures
            match *msg {
                ChannelMsg::Data(data) => {
                    &&& final(self).code == old(self).code
                    &&& final(self).stderr_buf@ == old(self).stderr_buf@
                    &&& stream_step(
                        old(self).stdout_buf@,
                        *stdout_mode,
                        data@,
                        final(self).stdout_buf@,
                        drained,
                    )
                },
                ChannelMsg::ExtendedData { data, ext } => if ext == 1 {
                    &&& final(self).code == old(self).code
                    &&& final(self).stdout_buf@ == old(self).stdout_buf@
                    &&& stream_step(
                        old(self).stderr_buf@,
                        *stderr_mode,
                        data@,
                        final(self).stderr_buf@,
                        drained,
                    )
                } else {
                    *final(self) == *old(self) && drained.lines@.len() == 0 && !drained.invalid
                },
                ChannelMsg::ExitStatus(status) => {
                    &&& final(self).code == Some(status)
                    &&& final(self).stdout_buf@ == old(self).stdout_buf@
                    &&& final(self).stderr_buf@ == old(self).stderr_buf@
                    &&& drained.lines@.len() == 0
                    &&& !drained.invalid
                },
                ChannelMsg::Other => *final(self) == *old(self) && drained.lines@.len() == 0
                    && !drained.invalid,
            },
    {
        match msg {
            ChannelMsg::Data(data) => handle_data_msg(&mut self.stdout_buf, stdout_mode, data),
            ChannelMsg::ExtendedData { data, ext } => {
                if *ext == 1 {
                    handle_data_msg(&mut self.stderr_buf, stderr_mode, data)
                } else {
                    Drained { lines: Vec::new(), invalid: false }
                }
            },
            ChannelMsg::ExitStatus(status) => {
                self.code = Some(*status);
                Drained { lines: Vec::new(), invalid: false }
            },
            ChannelMsg::Other => Drained { lines: Vec::new(), invalid: false },
        }
    }

    /// Says how the command ended, once the channel has ended.
    ///
    /// A channel that ended without an exit status is an error, and so is a
    /// status other than zero where `err_on_nonzero` asks for it. The
    /// outcome holds the bytes of each captured stream.
    pub fn finish(
        self,
        err_on_nonzero: bool,
        stdout_mode: &StreamMode,
        stderr_mode: &StreamMode,
    ) -> (outcome: Result<ExecOutcome, ExecError>)
        ensures
            match self.code {
                None => outcome == Err::<ExecOutcome, ExecError>(ExecError::NoExitStatus),
                Some(code) => if err_on_nonzero && code != 0 {
                    outcome == Err::<ExecOutcome, ExecError>(ExecError::NonZero(code))
                } else {
                    &&& outcome is Ok
                    &&& outcome->Ok_0.code == code
                    &&& outcome->Ok_0.stdout is Some <==> *stdout_mode is Capture
                    &&& outcome->Ok_0.stderr is Some <==> *stderr_mode is Capture
                    &&& outcome->Ok_0.stdout is Some ==> outcome->Ok_0.stdout->0@
                        == self.stdout_buf@
                    &&& outcome->Ok_0.stderr is Some ==> outcome->Ok_0.stderr->0@
                        == self.stderr_buf@
                },
            },
    {
        match self.code {
            None => Err(ExecError::NoExitStatus),
            Some(code) => {
                if err_on_nonzero && code != 0 {
                    return Err(ExecError::NonZero(code));
                }
                Ok(
                    ExecOutcome {
                        code,
                        stdout: if stdout_mode.is_capture() {
                            Some(self.stdout_buf)
                        } else {
                            None
                        },
                        stderr: if stderr_mode.is_capture() {
                            Some(self.stderr_buf)
                        } else {
                            None
                        },
                    },
                )
            },
        }
    }
}

/// What [`handle_data_msg`] does to a stream: `before` and `after` are the
/// buffer before and after `data` came, and `drained` is what was given up.
pub open spec fn stream_step(
    before: Seq<u8>,
    mode: StreamMode,
    data: Seq<u8>,
    after: Seq<u8>,
    drained: Drained,
) -> bool {
    let all = before + data;
    match mode {
        StreamMode::Capture => after == all && drained.lines@.len() == 0 && !drained.invalid,
        StreamMode::Log { level, prefix } => {
            &&& line_texts(drained.lines@) == logged_lines(all, 0, prefix@)
            &&& forall|i: int|
                0 <= i < drained.lines@.len() ==> (#[trigger] drained.lines@[i]).level == level
            &&& after == all.skip(kept_from(all, 0))
            &&& drained.invalid == has_invalid_line(all, 0)
        },
    }
}

impl ExecError {
    /// The message of the error.
    pub open spec fn text(self) -> Seq<char> {
        match self {
            ExecError::InvalidUtf8 => "remote command wrote a line that is not valid utf-8"@,
            ExecError::NoExitStatus => "channel ended without ExitStatus"@,
            ExecError::NonZero(code) => "remote command returned "@ + decimal(code as nat),
        }
    }

    /// The message of the error.
    pub fn message(&self) -> (message: String)
        ensures
            message@ == self.text(),
    {
        match self {
            ExecError::InvalidUtf8 => String::from_str(
                "remote command wrote a line that is not valid utf-8",
            ),
            ExecError::NoExitStatus => String::from_str("channel ended without ExitStatus"),
            ExecError::NonZero(code) => {
                let mut message = String::from_str("remote command returned ");
                push_decimal(&mut message, *code as u64);
                message
            },
        }
    }
}

/// The modes of a command that is passed through: both streams are logged
/// for debugging under `context`. Such a command must exit with zero.
pub fn exec_passthru<'a>(context: &'a str) -> (modes: (StreamMode<'a>, StreamMode<'a>))
    ensures
        modes.0 == (StreamMode::Log { level: Level::Debug, prefix: context }),
        modes.1 == (StreamMode::Log { level: Level::Debug, prefix: context }),
{
    let passthru = StreamMode::Log { level: Level::Debug, prefix: context };
    (passthru, passthru)
}

/// The error of a command that was passed through, with its context.
pub fn passthru_error(context: &str, error: &ExecError) -> (message: String)
    ensures
        message@ == context@ + ": "@ + error.text(),
{
    let mut message = String::from_str(context);
    message.append(": ");
    message.append(error.message().as_str());
    message
}

/// The command that prints the file at `path`.
pub fn read_file(path: &str) -> (command: String)
    ensures
        command@ == "cat "@ + path@,
{
    let mut command = String::from_str("cat ");
    command.append(path);
    command
}

/// The modes of a command that reads a file: the output is captured, and
/// what it writes to its standard error is logged for debugging under the
/// command itself. Such a command must exit with zero.
pub fn read_file_modes<'a>(command: &'a str) -> (modes: (StreamMode<'a>, StreamMode<'a>))
    ensures
        modes.0 is Capture,
        modes.1 == (StreamMode::Log { level: Level::Debug, prefix: command }),
{
    (StreamMode::Capture, StreamMode::Log { level: Level::Debug, prefix: command })
}

/// The command that stores its standard input in the file at `path`.
pub fn write_file(path: &str) -> (command: String)
    ensures
        command@ == "cat > "@ + path@,
{
    let mut command = String::from_str("cat > ");
    command.append(path);
    command
}

/// The execution of a command as far as its messages have come, as the
/// contracts speak of it.
pub struct Execution {
    /// The exit status, if it has come.
    pub code: Option<u32>,
    /// What the buffer of the standard output holds.
    pub stdout: Seq<u8>,
    /// What the buffer of the standard error holds.
    pub stderr: Seq<u8>,
    /// The lines that were given up for logging, each with its level.
    pub lines: Seq<(Level, Seq<char>)>,
    /// Whether a line that is not UTF-8 has stopped the execution.
    pub invalid: bool,
}

/// What a stream keeps of the bytes `all`.
pub open spec fn kept(all: Seq<u8>, mode: StreamMode) -> Seq<u8> {
    match mode {
        StreamMode::Capture => all,
        StreamMode::Log { .. } => all.skip(kept_from(all, 0)),
    }
}

/// What a stream gives up for logging of the bytes `all`.
pub open spec fn given_up(all: Seq<u8>, mode: StreamMode) -> Seq<(Level, Seq<char>)> {
    match mode {
        StreamMode::Capture => Seq::empty(),
        StreamMode::Log { level, prefix } => Seq::new(
            logged_lines(all, 0, prefix@).len(),
            |i: int| (level, logged_lines(all, 0, prefix@)[i]),
        ),
    }
}

/// Whether a stream meets a line that is not UTF-8 in the bytes `all`.
pub open spec fn stopped(all: Seq<u8>, mode: StreamMode) -> bool {
    match mode {
        StreamMode::Capture => false,
        StreamMode::Log { .. } => has_invalid_line(all, 0),
    }
}

/// The lines of a sequence of lines, each with its level.
pub open spec fn line_views(lines: Seq<LogLine>) -> Seq<(Level, Seq<char>)> {
    Seq::new(lines.len(), |i: int| (lines[i].level, lines[i].text@))
}

impl Execution {
    /// The execution of a command that has just been started.
    pub open spec fn begun() -> Execution {
        Execution {
            code: None,
            stdout: Seq::empty(),
            stderr: Seq::empty(),
            lines: Seq::empty(),
            invalid: false,
        }
    }

    /// The execution after one more message. Once a line that is not UTF-8
    /// has stopped it, nothing more is taken.
    pub open spec fn after(self, msg: ChannelMsg, stdout_mode: StreamMode, stderr_mode: StreamMode) -> Execution {
        if self.invalid {
            self
        } else {
            match msg {
                ChannelMsg::Data(data) => Execution {
                    stdout: kept(self.stdout + data@, stdout_mode),
                    lines: self.lines + given_up(self.stdout + data@, stdout_mode),
                    invalid: stopped(self.stdout + data@, stdout_mode),
                    ..self
                },
                ChannelMsg::ExtendedData { data, ext } => if ext == 1 {
                    Execution {
                        stderr: kept(self.stderr + data@, stderr_mode),
                        lines: self.lines + given_up(self.stderr + data@, stderr_mode),
                        invalid: stopped(self.stderr + data@, stderr_mode),
                        ..self
                    }
                } else {
                    self
                },
                ChannelMsg::ExitStatus(status) => Execution { code: Some(status), ..self },
                ChannelMsg::Other => self,
            }
        }
    }

    /// The execution after all of `messages`, taken in order.
    pub open spec fn after_all(
        messages: Seq<ChannelMsg>,
        stdout_mode: StreamMode,
        stderr_mode: StreamMode,
    ) -> Execution
        decreases messages.len(),
    {
        if messages.len() == 0 {
            Execution::begun()
        } else {
            Execution::after_all(messages.drop_last(), stdout_mode, stderr_mode).after(
                messages.last(),
                stdout_mode,
                stderr_mode,
            )
        }
    }

    /// The error with which the execution ends, if it ends with one: a
    /// line that is not UTF-8, a missing exit status, or an exit status
    /// other than zero where `err_on_nonzero` asks for it.
    pub open spec fn error(self, err_on_nonzero: bool) -> Option<ExecError> {
        if self.invalid {
            Some(ExecError::InvalidUtf8)
        } else {
            match self.code {
                None => Some(ExecError::NoExitStatus),
                Some(code) => if err_on_nonzero && code != 0 {
                    Some(ExecError::NonZero(code))
                } else {
                    None
                },
            }
        }
    }
}

/// A command that has run to its end.
pub struct Completion {
    /// The lines to log, in order.
    pub lines: Vec<LogLine>,
    /// How the command ended.
    pub outcome: Result<ExecOutcome, ExecError>,
}

/// Runs a command to completion over the messages that its channel
/// delivered until it ended.
///
/// The output goes to the buffers of its streams and the lines of the
/// logged streams are given up, message by message; the last exit status
/// counts. The command fails if a logged line is not UTF-8, if no exit
/// status came, or if the status is not zero where `err_on_nonzero` asks
/// for zero. Else the outcome holds the status and what the captured
/// streams have collected.
pub fn exec_to_completion(
    messages: &Vec<ChannelMsg>,
    err_on_nonzero: bool,
    stdout_mode: &StreamMode,
    stderr_mode: &StreamMode,
) -> (completion: Completion)
    ensures
        ({
            let end = Execution::after_all(messages@, *stdout_mode, *stderr_mode);
            &&& line_views(completion.lines@) == end.lines
            &&& match completion.outcome {
                Err(error) => end.error(err_on_nonzero) == Some(error),
                Ok(outcome) => {
                    &&& end.error(err_on_nonzero) is None
                    &&& Some(outcome.code) == end.code
                    &&& outcome.stdout is Some <==> *stdout_mode is Capture
                    &&& outcome.stderr is Some <==> *stderr_mode is Capture
                    &&& outcome.stdout is Some ==> outcome.stdout->0@ == end.stdout
                    &&& outcome.stderr is Some ==> outcome.stderr->0@ == end.stderr
                },
            }
        }),
{
    let mut session = ExecSession::new();
    let mut lines: Vec<LogLine> = Vec::new();
    let mut invalid = false;
    let mut i: usize = 0;
    assert(messages@.take(0) =~= Seq::<ChannelMsg>::empty());
    assert(line_views(lines@) =~= Seq::<(Level, Seq<char>)>::empty());
    assert(session.stdout_buf@ =~= Seq::<u8>::empty());
    assert(session.stderr_buf@ =~= Seq::<u8>::empty());
    while i < messages.len()
        invariant
            i <= messages.len(),
            ({
                let so_far = Execution::after_all(
                    messages@.take(i as int),
                    *stdout_mode,
                    *stderr_mode,
                );
                &&& session.code == so_far.code
                &&& session.stdout_buf@ == so_far.stdout
                &&& session.stderr_buf@ == so_far.stderr
                &&& line_views(lines@) == so_far.lines
                &&& invalid == so_far.invalid
            }),
        decreases messages.len() - i,
    {
        proof {
            assert(messages@.take(i + 1).drop_last() =~= messages@.take(i as int));
            assert(messages@.take(i + 1).last() == messages@[i as int]);
        }
        if !invalid {
            let ghost before = line_views(lines@);
            let ghost so_far = Execution::after_all(
                messages@.take(i as int),
                *stdout_mode,
                *stderr_mode,
            );
            let mut drained = session.handle(&messages[i], stdout_mode, stderr_mode);
            let ghost added = line_views(drained.lines@);
            proof {
                let next = so_far.after(messages@[i as int], *stdout_mode, *stderr_mode);
                assert(before + added =~= next.lines);
            }
            invalid = drained.invalid;
            lines.append(&mut drained.lines);
            assert(line_views(lines@) =~= before + added);
        }
        i += 1;
    }
    assert(messages@.take(messages.len() as int) =~= messages@);
    if invalid {
        return Completion { lines, outcome: Err(ExecError::InvalidUtf8) };
    }
    let outcome = session.finish(err_on_nonzero, stdout_mode, stderr_mode);
    Completion { lines, outcome }
}

/// The end of a line lies at or after its beginning, no line feed lies
/// before it, and a line feed lies at it unless the bytes end there.
pub proof fn lemma_line_end(bytes: Seq<u8>, from: int)
    requires
        0 <= from <= bytes.len(),
    ensures
        from <= line_end(bytes, from) <= bytes.len(),
        forall|j: int| from <= j < line_end(bytes, from) ==> bytes[j] != LINE_FEED,
        line_end(bytes, from) < bytes.len() ==> bytes[line_end(bytes, from)] == LINE_FEED,
    decreases bytes.len() - from,
{
    if from < bytes.len() && bytes[from] != LINE_FEED {
        lemma_line_end(bytes, from + 1);
    }
}

/// A line that ends within the first bytes ends there whatever follows.
proof fn lemma_line_end_of_prefix(first: Seq<u8>, then: Seq<u8>, from: int)
    requires
        0 <= from <= first.len(),
        line_end(first, from) < first.len(),
    ensures
        line_end(first + then, from) == line_end(first, from),
    decreases first.len() - from,
{
    assert((first + then)[from] == first[from]);
    if first[from] != LINE_FEED {
        lemma_line_end_of_prefix(first, then, from + 1);
    }
}

/// Where the lines end does not depend on how many bytes came before them.
proof fn lemma_line_end_shifts(bytes: Seq<u8>, skipped: int, from: int)
    requires
        0 <= skipped,
        0 <= from,
        skipped + from <= bytes.len(),
    ensures
        line_end(bytes, skipped + from) == skipped + line_end(bytes.skip(skipped), from),
    decreases bytes.len() - skipped - from,
{
    let rest = bytes.skip(skipped);
    if skipped + from < bytes.len() {
        assert(rest[from] == bytes[skipped + from]);
        if bytes[skipped + from] != LINE_FEED {
            lemma_line_end_shifts(bytes, skipped, from + 1);
        }
    }
}

/// What is logged from a position on does not depend on how many bytes
/// came before it.
proof fn lemma_logging_shifts(bytes: Seq<u8>, skipped: int, from: int, prefix: Seq<char>)
    requires
        0 <= skipped,
        0 <= from,
        skipped + from <= bytes.len(),
    ensures
        logged_lines(bytes, skipped + from, prefix) == logged_lines(
            bytes.skip(skipped),
            from,
            prefix,
        ),
        kept_from(bytes, skipped + from) == skipped + kept_from(bytes.skip(skipped), from),
        has_invalid_line(bytes, skipped + from) == has_invalid_line(bytes.skip(skipped), from),
    decreases bytes.len() - skipped - from,
{
    let rest = bytes.skip(skipped);
    lemma_line_end_shifts(bytes, skipped, from);
    lemma_line_end(rest, from);
    let end = line_end(rest, from);
    if end < rest.len() {
        assert(bytes.subrange(skipped + from, skipped + end) =~= rest.subrange(from, end));
        if valid_utf8(rest.subrange(from, end)) {
            lemma_logging_shifts(bytes, skipped, end + 1, prefix);
        }
    }
}

/// What the first bytes give up for logging is given up whatever follows
/// them, and the logging goes on from where they are kept.
proof fn lemma_logging_of_prefix(first: Seq<u8>, then: Seq<u8>, from: int, prefix: Seq<char>)
    requires
        0 <= from <= first.len(),
        !has_invalid_line(first, from),
    ensures
        from <= kept_from(first, from) <= first.len(),
        logged_lines(first + then, from, prefix) == logged_lines(first, from, prefix) + logged_lines(
            first + then,
            kept_from(first, from),
            prefix,
        ),
        kept_from(first + then, from) == kept_from(first + then, kept_from(first, from)),
        has_invalid_line(first + then, from) == has_invalid_line(
            first + then,
            kept_from(first, from),
        ),
    decreases first.len() - from,
{
    let all = first + then;
    lemma_line_end(first, from);
    let end = line_end(first, from);
    if end < first.len() {
        lemma_line_end_of_prefix(first, then, from);
        assert(all.subrange(from, end) =~= first.subrange(from, end));
        lemma_logging_of_prefix(first, then, end + 1, prefix);
        let line = seq![log_text(prefix, first.subrange(from, end))];
        assert(line + (logged_lines(first, end + 1, prefix) + logged_lines(
            all,
            kept_from(first, end + 1),
            prefix,
        )) =~= (line + logged_lines(first, end + 1, prefix)) + logged_lines(
            all,
            kept_from(first, end + 1),
            prefix,
        ));
    } else {
        assert(Seq::<Seq<char>>::empty() + logged_lines(all, from, prefix) =~= logged_lines(
            all,
            from,
            prefix,
        ));
    }
}

/// The log of a stream does not depend on the pieces in which its bytes
/// come: taking `first` and then `then` gives up the same lines, keeps the
/// same bytes and meets the same invalid line as taking both at once.
pub proof fn lemma_logging_ignores_chunking(first: Seq<u8>, then: Seq<u8>, prefix: Seq<char>)
    requires
        !has_invalid_line(first, 0),
    ensures
        ({
            let kept = first.skip(kept_from(first, 0));
            let all = first + then;
            &&& logged_lines(all, 0, prefix) == logged_lines(first, 0, prefix) + logged_lines(
                kept + then,
                0,
                prefix,
            )
            &&& all.skip(kept_from(all, 0)) == (kept + then).skip(kept_from(kept + then, 0))
            &&& has_invalid_line(all, 0) == has_invalid_line(kept + then, 0)
        }),
{
    let all = first + then;
    let at = kept_from(first, 0);
    lemma_logging_of_prefix(first, then, 0, prefix);
    lemma_logging_shifts(all, at, 0, prefix);
    assert(all.skip(at) =~= first.skip(at) + then);
    let rest = first.skip(at) + then;
    lemma_kept_in_bounds(rest, 0);
    assert(all.skip(at + kept_from(rest, 0)) =~= rest.skip(kept_from(rest, 0)));
}

/// What is kept begins within the bytes.
proof fn lemma_kept_in_bounds(bytes: Seq<u8>, from: int)
    requires
        0 <= from <= bytes.len(),
    ensures
        from <= kept_from(bytes, from) <= bytes.len(),
    decreases bytes.len() - from,
{
    lemma_line_end(bytes, from);
    let end = line_end(bytes, from);
    if end < bytes.len() && valid_utf8(bytes.subrange(from, end)) {
        lemma_kept_in_bounds(bytes, end + 1);
    }
}

} // verus!
