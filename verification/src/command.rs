//! The commands that steer the timer, and how a line of input names one.

use vstd::prelude::*;
use crate::text::trim;
use crate::text::trimmed;
use crate::text::characters;

verus! {

/// An instruction from the user to the timer.
#[derive(Clone, Copy, Debug, PartialEq, Eq, Structural)]
pub enum TimerCommand {
    /// Stop counting down and wait.
    Pause,
    /// Go on after a pause.
    Resume,
    /// Leave the current session for the next one.
    Skip,
    /// End the program.
    Quit,
}

/// What one look at the command channel finds, without waiting.
#[derive(Clone, Copy, Debug, PartialEq, Eq, Structural)]
pub enum Poll {
    /// The oldest command that was waiting.
    Command(TimerCommand),
    /// Nothing is waiting.
    Empty,
    /// Nothing is waiting and the sending side is gone.
    Disconnected,
}

/// The command that a token names: the single letters `p`, `r`, `s` and `q`,
/// in either case, and nothing else.
pub open spec fn command_for(token: Seq<char>) -> Option<TimerCommand> {
    if token.len() != 1 {
        None
    } else if token[0] == 'p' || token[0] == 'P' {
        Some(TimerCommand::Pause)
    } else if token[0] == 'r' || token[0] == 'R' {
        Some(TimerCommand::Resume)
    } else if token[0] == 's' || token[0] == 'S' {
        Some(TimerCommand::Skip)
    } else if token[0] == 'q' || token[0] == 'Q' {
        Some(TimerCommand::Quit)
    } else {
        None
    }
}

/// The command that a line of input names, white space around it ignored.
pub fn parse_command(line: &str) -> (command: Option<TimerCommand>)
    ensures
        command == command_for(trimmed(line@)),
{
    let token = characters(trim(line));
    if token.len() != 1 {
        return None;
    }
    let c: char = token[0];
    if c == 'p' || c == 'P' {
        Some(TimerCommand::Pause)
    } else if c == 'r' || c == 'R' {
        Some(TimerCommand::Resume)
    } else if c == 's' || c == 'S' {
        Some(TimerCommand::Skip)
    } else if c == 'q' || c == 'Q' {
        Some(TimerCommand::Quit)
    } else {
        None
    }
}

} // verus!
