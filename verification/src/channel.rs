//! The command channel: a queue from the input reader to the timer.
//!
//! Commands leave in the order in which they were sent. The receiving side
//! never waits: a look at the channel finds a command, or nothing, or
//! nothing and the sending side gone. The sending side learns from the
//! result of a send that the receiving side is gone.

use vstd::prelude::*;
use std::collections::VecDeque;
use crate::command::Poll;
use crate::command::TimerCommand;

verus! {

/// Why a command was not sent.
#[derive(Clone, Copy, Debug, PartialEq, Eq, Structural)]
pub enum SendError {
    /// The receiving side is gone; the command is dropped.
    Disconnected,
    /// The sending side was closed before; the command is dropped.
    Closed,
}

/// The channel as a mathematical value.
pub struct QueueModel {
    /// The commands sent and not yet received, oldest first.
    pub pending: Seq<TimerCommand>,
    /// Whether the sending side is still there.
    pub sender_open: bool,
    /// Whether the receiving side is still there.
    pub receiver_open: bool,
}

impl QueueModel {
    /// The channel when it is made: empty, both sides there.
    pub open spec fn empty() -> QueueModel {
        QueueModel { pending: Seq::empty(), sender_open: true, receiver_open: true }
    }

    /// Whether a send goes through: both sides are there.
    pub open spec fn connected(self) -> bool {
        self.sender_open && self.receiver_open
    }

    /// The result of sending a command.
    pub open spec fn send_result(self) -> Result<(), SendError> {
        if !self.sender_open {
            Err(SendError::Closed)
        } else if !self.receiver_open {
            Err(SendError::Disconnected)
        } else {
            Ok(())
        }
    }

    /// The channel after `command` was sent: the command is last in line if
    /// the send went through, and the channel is as before if not.
    pub open spec fn sent(self, command: TimerCommand) -> QueueModel {
        if self.connected() {
            QueueModel { pending: self.pending.push(command), ..self }
        } else {
            self
        }
    }

    /// What a look at the channel finds.
    pub open spec fn poll(self) -> Poll {
        if self.pending.len() > 0 {
            Poll::Command(self.pending.first())
        } else if self.sender_open {
            Poll::Empty
        } else {
            Poll::Disconnected
        }
    }

    /// The channel after a look at it: without its oldest command.
    pub open spec fn polled(self) -> QueueModel {
        if self.pending.len() > 0 {
            QueueModel { pending: self.pending.drop_first(), ..self }
        } else {
            self
        }
    }

    /// The channel after the commands of `commands` were sent in order.
    pub open spec fn sent_all(self, commands: Seq<TimerCommand>) -> QueueModel
        decreases commands.len(),
    {
        if commands.len() == 0 {
            self
        } else {
            self.sent_all(commands.drop_last()).sent(commands.last())
        }
    }

    /// The channel after `n` looks at it.
    pub open spec fn polled_times(self, n: nat) -> QueueModel
        decreases n,
    {
        if n == 0 {
            self
        } else {
            self.polled_times((n - 1) as nat).polled()
        }
    }
}

/// The command channel.
#[derive(Debug)]
pub struct CommandQueue {
    pending: VecDeque<TimerCommand>,
    sender_open: bool,
    receiver_open: bool,
}

impl View for CommandQueue {
    type V = QueueModel;

    closed spec fn view(&self) -> QueueModel {
        QueueModel {
            pending: self.pending@,
            sender_open: self.sender_open,
            receiver_open: self.receiver_open,
        }
    }
}

impl CommandQueue {
    /// An empty channel with both sides there.
    pub fn new() -> (queue: CommandQueue)
        ensures
            queue@ == QueueModel::empty(),
    {
        CommandQueue { pending: VecDeque::new(), sender_open: true, receiver_open: true }
    }

    /// Sends `command`. It joins the end of the line if both sides are
    /// there; otherwise it is dropped, the channel stays as it was, and the
    /// error says which side is gone.
    pub fn send(&mut self, command: TimerCommand) -> (result: Result<(), SendError>)
        ensures
            result == old(self)@.send_result(),
            final(self)@ == old(self)@.sent(command),
    {
        if !self.sender_open {
            Err(SendError::Closed)
        } else if !self.receiver_open {
            Err(SendError::Disconnected)
        } else {
            self.pending.push_back(command);
            Ok(())
        }
    }

    /// Looks at the channel without waiting, and takes the oldest command
    /// out of it if there is one.
    pub fn try_recv(&mut self) -> (poll: Poll)
        ensures
            poll == old(self)@.poll(),
            final(self)@ == old(self)@.polled(),
    {
        match self.pending.pop_front() {
            Some(command) => {
                assert(self.pending@ =~= old(self).pending@.drop_first());
                Poll::Command(command)
            },
            None => if self.sender_open {
                Poll::Empty
            } else {
                Poll::Disconnected
            },
        }
    }

    /// Takes the sending side away. What was sent before can still be
    /// received; after that, a look at the channel finds it disconnected.
    pub fn close_sender(&mut self)
        ensures
            final(self)@ == (QueueModel { sender_open: false, ..old(self)@ }),
    {
        self.sender_open = false;
    }

    /// Takes the receiving side away. What was waiting is dropped, and every
    /// later send fails.
    pub fn close_receiver(&mut self)
        ensures
            final(self)@ == (QueueModel {
                pending: Seq::empty(),
                receiver_open: false,
                ..old(self)@
            }),
    {
        self.receiver_open = false;
        self.pending.clear();
    }

    /// The number of commands that wait to be received.
    pub fn len(&self) -> (n: usize)
        ensures
            n == self@.pending.len(),
    {
        self.pending.len()
    }

    /// Whether no command waits to be received.
    pub fn is_empty(&self) -> (empty: bool)
        ensures
            empty == (self@.pending.len() == 0),
    {
        self.pending.len() == 0
    }
}

/// While both sides are there, sending keeps what was waiting and adds the
/// new commands behind it, in the order in which they were sent.
pub proof fn law_sends_queue_up(queue: QueueModel, commands: Seq<TimerCommand>)
    requires
        queue.connected(),
    ensures
        queue.sent_all(commands) == (QueueModel {
            pending: queue.pending + commands,
            ..queue
        }),
    decreases commands.len(),
{
    if commands.len() == 0 {
        assert(queue.pending + commands =~= queue.pending);
    } else {
        law_sends_queue_up(queue, commands.drop_last());
        assert((queue.pending + commands.drop_last()).push(commands.last()) =~= queue.pending
            + commands);
    }
}

/// Looking at the channel `n` times takes its `n` oldest commands away and
/// leaves the rest in order.
pub proof fn law_polls_take_the_oldest(queue: QueueModel, n: nat)
    requires
        n <= queue.pending.len(),
    ensures
        queue.polled_times(n) == (QueueModel { pending: queue.pending.skip(n as int), ..queue }),
    decreases n,
{
    if n == 0 {
        assert(queue.pending.skip(0) =~= queue.pending);
    } else {
        law_polls_take_the_oldest(queue, (n - 1) as nat);
        assert(queue.pending.skip(n - 1).drop_first() =~= queue.pending.skip(n as int));
    }
}

/// First in, first out: of the commands sent into an empty channel, the
/// look after `i` earlier ones finds the command that was sent as number
/// `i`.
pub proof fn law_first_in_first_out(commands: Seq<TimerCommand>, i: int)
    requires
        0 <= i < commands.len(),
    ensures
        QueueModel::empty().sent_all(commands).polled_times(i as nat).poll() == Poll::Command(
            commands[i],
        ),
{
    let queue = QueueModel::empty();
    law_sends_queue_up(queue, commands);
    assert(queue.pending + commands =~= commands);
    law_polls_take_the_oldest(queue.sent_all(commands), i as nat);
}

} // verus!
