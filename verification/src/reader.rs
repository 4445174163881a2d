//! The input reader: what to do with each line that the user types.

use vstd::prelude::*;
use crate::command::TimerCommand;
use crate::command::command_for;
use crate::command::parse_command;
use crate::text::trimmed;

verus! {

/// What the input reader does with one line of input, or with its end.
#[derive(Clone, Copy, Debug, PartialEq, Eq, Structural)]
pub enum ReaderAction {
    /// Send the command to the timer and read on. The command is never
    /// `Quit`. A send that fails is no error: the timer is gone and the
    /// command is dropped.
    Forward(TimerCommand),
    /// Send `Quit` to the timer, raise the shutdown signal and stop reading.
    Quit,
    /// The line names no command: remind the user of the commands and read
    /// on.
    Hint,
}

/// What the input reader does with `input`: a line, or `None` at the end of
/// the input. The end of the input counts as `Quit`.
pub open spec fn reader_action_for(input: Option<Seq<char>>) -> ReaderAction {
    match input {
        None => ReaderAction::Quit,
        Some(line) => match command_for(trimmed(line)) {
            Some(TimerCommand::Quit) => ReaderAction::Quit,
            Some(command) => ReaderAction::Forward(command),
            None => ReaderAction::Hint,
        },
    }
}

/// The characters of a line that was read, if one was.
pub open spec fn line_view(input: Option<&str>) -> Option<Seq<char>> {
    match input {
        Some(line) => Some(line@),
        None => None,
    }
}

/// What the input reader does with `input`: a line, or `None` at the end of
/// the input.
pub fn reader_action(input: Option<&str>) -> (action: ReaderAction)
    ensures
        action == reader_action_for(line_view(input)),
{
    match input {
        None => ReaderAction::Quit,
        Some(line) => match parse_command(line) {
            Some(TimerCommand::Quit) => ReaderAction::Quit,
            Some(command) => ReaderAction::Forward(command),
            None => ReaderAction::Hint,
        },
    }
}

/// The reader stops on `Quit` and at the end of the input, and only then.
pub proof fn law_reader_stops_on_quit(input: Option<Seq<char>>)
    ensures
        reader_action_for(input) == ReaderAction::Quit <==> input is None || command_for(
            trimmed(input->0),
        ) == Some(TimerCommand::Quit),
        reader_action_for(input) != ReaderAction::Forward(TimerCommand::Quit),
{
}

} // verus!
