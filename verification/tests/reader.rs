use pomodoro::command::TimerCommand;
use pomodoro::reader::reader_action;
use pomodoro::reader::ReaderAction;
use pomodoro::signal::ShutdownSignal;

#[test]
fn reader_forwards_pause_resume_and_skip() {
    assert_eq!(reader_action(Some("p")), ReaderAction::Forward(TimerCommand::Pause));
    assert_eq!(reader_action(Some("r")), ReaderAction::Forward(TimerCommand::Resume));
    assert_eq!(reader_action(Some("s")), ReaderAction::Forward(TimerCommand::Skip));
    assert_eq!(reader_action(Some(" P \n")), ReaderAction::Forward(TimerCommand::Pause));
}

#[test]
fn reader_stops_on_quit() {
    assert_eq!(reader_action(Some("q")), ReaderAction::Quit);
    assert_eq!(reader_action(Some("Q")), ReaderAction::Quit);
    assert_eq!(reader_action(Some("  q\r\n")), ReaderAction::Quit);
}

#[test]
fn reader_takes_the_end_of_input_as_quit() {
    assert_eq!(reader_action(None), ReaderAction::Quit);
}

#[test]
fn reader_hints_on_anything_else() {
    assert_eq!(reader_action(Some("")), ReaderAction::Hint);
    assert_eq!(reader_action(Some("\n")), ReaderAction::Hint);
    assert_eq!(reader_action(Some("x")), ReaderAction::Hint);
    assert_eq!(reader_action(Some("quit")), ReaderAction::Hint);
    assert_eq!(reader_action(Some("p p")), ReaderAction::Hint);
    assert_eq!(reader_action(Some("25")), ReaderAction::Hint);
}

#[test]
fn signal_starts_lowered_and_stays_raised() {
    let mut signal = ShutdownSignal::new();
    assert!(!signal.is_raised());
    signal.raise();
    assert!(signal.is_raised());
    signal.raise();
    assert!(signal.is_raised());
}
