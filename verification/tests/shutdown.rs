use fleeting::shutdown::{wait_for_signal, Signal};

#[test]
fn signal_ends_the_program_with_a_failure() {
    for signal in [Signal::Terminate, Signal::Interrupt, Signal::CtrlC, Signal::CtrlBreak, Signal::CtrlClose, Signal::CtrlShutdown] {
        assert_eq!(wait_for_signal(Some(signal), None), Some(1));
        assert_eq!(wait_for_signal(Some(signal), Some(Ok(0))), Some(1));
        assert_eq!(wait_for_signal(Some(signal), Some(Err(()))), Some(1));
    }
}

#[test]
fn mode_ends_the_program_without_a_signal() {
    assert_eq!(wait_for_signal(None, Some(Ok(0))), Some(0));
    assert_eq!(wait_for_signal(None, Some(Ok(7))), Some(7));
    assert_eq!(wait_for_signal(None, Some(Err(()))), Some(1));
    assert_eq!(wait_for_signal(None, None), None);
}

#[test]
fn signals_are_noted_in_the_log() {
    assert_eq!(Signal::Terminate.message(), "Received SIGTERM.");
    assert_eq!(Signal::Interrupt.message(), "Received SIGINT.");
    assert_eq!(Signal::CtrlC.message(), "Received CTRL_C.");
    assert_eq!(Signal::CtrlBreak.message(), "Received CTRL_BREAK.");
    assert_eq!(Signal::CtrlClose.message(), "Received CTRL_CLOSE.");
    assert_eq!(Signal::CtrlShutdown.message(), "Received CTRL_SHUTDOWN.");
}
