//! Termination signals: what the program makes of a request to shut down.

use crate::cli::EXIT_FAILURE;
use vstd::prelude::*;

verus! {

/// A request to shut down, as the operating system delivers it.
#[derive(Clone, Copy, Debug, PartialEq, Eq, Structural)]
pub enum Signal {
    /// `SIGTERM`
    Terminate,
    /// `SIGINT`
    Interrupt,
    /// Ctrl-C in a console
    CtrlC,
    /// Ctrl-Break in a console
    CtrlBreak,
    /// The console is closed.
    CtrlClose,
    /// The system shuts down.
    CtrlShutdown,
}

impl Signal {
    /// The line that notes the signal in the log.
    pub fn message(&self) -> (message: &'static str)
        ensures
            message@ == match *self {
                Signal::Terminate => "Received SIGTERM."@,
                Signal::Interrupt => "Received SIGINT."@,
                Signal::CtrlC => "Received CTRL_C."@,
                Signal::CtrlBreak => "Received CTRL_BREAK."@,
                Signal::CtrlClose => "Received CTRL_CLOSE."@,
                Signal::CtrlShutdown => "Received CTRL_SHUTDOWN."@,
            },
    {
        match self {
            Signal::Terminate => "Received SIGTERM.",
            Signal::Interrupt => "Received SIGINT.",
            Signal::CtrlC => "Received CTRL_C.",
            Signal::CtrlBreak => "Received CTRL_BREAK.",
            Signal::CtrlClose => "Received CTRL_CLOSE.",
            Signal::CtrlShutdown => "Received CTRL_SHUTDOWN.",
        }
    }
}

/// The exit status of the program, given what the race between the signals
/// and the selected mode has brought so far: a signal ends the program with
/// a failure, whatever the mode has reached; else the mode's own status
/// ends it, or a failure where the mode failed; else the race goes on.
pub fn wait_for_signal(signal: Option<Signal>, mode: Option<Result<u8, ()>>) -> (status: Option<u8>)
    ensures
        status == match (signal, mode) {
            (Some(_), _) => Some(EXIT_FAILURE),
            (None, Some(Ok(code))) => Some(code),
            (None, Some(Err(_))) => Some(EXIT_FAILURE),
            (None, None) => None,
        },
{
    match (signal, mode) {
        (Some(_), _) => Some(EXIT_FAILURE),
        (None, Some(Ok(code))) => Some(code),
        (None, Some(Err(_))) => Some(EXIT_FAILURE),
        (None, None) => None,
    }
}

} // verus!
