use pomodoro::channel::CommandQueue;
use pomodoro::channel::SendError;
use pomodoro::command::Poll;
use pomodoro::command::TimerCommand;

#[test]
fn new_queue_is_empty() {
    let mut queue = CommandQueue::new();
    assert!(queue.is_empty());
    assert_eq!(queue.len(), 0);
    assert_eq!(queue.try_recv(), Poll::Empty);
    assert_eq!(queue.try_recv(), Poll::Empty);
}

#[test]
fn commands_leave_in_the_order_sent() {
    let mut queue = CommandQueue::new();
    let sent = [
        TimerCommand::Pause,
        TimerCommand::Resume,
        TimerCommand::Resume,
        TimerCommand::Skip,
        TimerCommand::Pause,
        TimerCommand::Quit,
    ];
    for command in sent {
        assert_eq!(queue.send(command), Ok(()));
    }
    assert_eq!(queue.len(), 6);
    for command in sent {
        assert_eq!(queue.try_recv(), Poll::Command(command));
    }
    assert!(queue.is_empty());
    assert_eq!(queue.try_recv(), Poll::Empty);
}

#[test]
fn sends_and_looks_may_interleave() {
    let mut queue = CommandQueue::new();
    queue.send(TimerCommand::Skip).unwrap();
    queue.send(TimerCommand::Pause).unwrap();
    assert_eq!(queue.try_recv(), Poll::Command(TimerCommand::Skip));
    queue.send(TimerCommand::Quit).unwrap();
    assert_eq!(queue.len(), 2);
    assert_eq!(queue.try_recv(), Poll::Command(TimerCommand::Pause));
    assert_eq!(queue.try_recv(), Poll::Command(TimerCommand::Quit));
    assert_eq!(queue.try_recv(), Poll::Empty);
}

#[test]
fn closed_sender_shows_after_the_last_command() {
    let mut queue = CommandQueue::new();
    queue.send(TimerCommand::Pause).unwrap();
    queue.send(TimerCommand::Quit).unwrap();
    queue.close_sender();
    assert_eq!(queue.try_recv(), Poll::Command(TimerCommand::Pause));
    assert_eq!(queue.try_recv(), Poll::Command(TimerCommand::Quit));
    assert_eq!(queue.try_recv(), Poll::Disconnected);
    assert_eq!(queue.try_recv(), Poll::Disconnected);
}

#[test]
fn send_after_closing_the_sender_fails() {
    let mut queue = CommandQueue::new();
    queue.close_sender();
    assert_eq!(queue.send(TimerCommand::Pause), Err(SendError::Closed));
    assert!(queue.is_empty());
}

#[test]
fn send_to_a_gone_receiver_fails_and_drops_the_command() {
    let mut queue = CommandQueue::new();
    queue.send(TimerCommand::Resume).unwrap();
    queue.close_receiver();
    assert!(queue.is_empty());
    assert_eq!(queue.send(TimerCommand::Pause), Err(SendError::Disconnected));
    assert_eq!(queue.send(TimerCommand::Quit), Err(SendError::Disconnected));
    assert_eq!(queue.len(), 0);
}

#[test]
fn closed_on_both_sides_reports_the_sender_first() {
    let mut queue = CommandQueue::new();
    queue.close_receiver();
    queue.close_sender();
    assert_eq!(queue.send(TimerCommand::Skip), Err(SendError::Closed));
    assert_eq!(queue.try_recv(), Poll::Disconnected);
}
