//! The lengths of the two kinds of session, fixed before the timer starts.

use vstd::prelude::*;
use crate::text::parse_number;
use crate::text::parsed_number;
use crate::text::trim;
use crate::text::trimmed;

verus! {

/// Length of a work session when none is given, in minutes.
pub const DEFAULT_WORK_MINUTES: u64 = 25;

/// Length of a break when none is given, in minutes.
pub const DEFAULT_BREAK_MINUTES: u64 = 5;

/// One of the two kinds of session that the timer alternates.
#[derive(Clone, Copy, Debug, PartialEq, Eq, Structural)]
pub enum SessionKind {
    Work,
    Break,
}

impl SessionKind {
    /// The name under which sessions of this kind are announced.
    pub fn label(self) -> (name: &'static str)
        ensures
            name@ == match self {
                SessionKind::Work => "Work"@,
                SessionKind::Break => "Break"@,
            },
    {
        match self {
            SessionKind::Work => "Work",
            SessionKind::Break => "Break",
        }
    }
}

/// The minutes that an entry asks for: the number entered where there is one
/// and it is positive, the default otherwise.
pub open spec fn chosen_minutes(entry: Option<u64>, default: u64) -> u64 {
    match entry {
        Some(minutes) if minutes > 0 => minutes,
        _ => default,
    }
}

/// The minutes that an entry asks for: the number entered where there is one
/// and it is positive, the default otherwise.
pub fn minutes_or_default(entry: Option<u64>, default: u64) -> (minutes: u64)
    ensures
        minutes == chosen_minutes(entry, default),
{
    match entry {
        Some(minutes) => if minutes > 0 {
            minutes
        } else {
            default
        },
        None => default,
    }
}

/// The minutes that a line of input asks for. A line that holds no number,
/// or zero, asks for the default.
pub fn read_minutes(line: &str, default: u64) -> (minutes: u64)
    ensures
        minutes == chosen_minutes(parsed_number(trimmed(line@)), default),
{
    minutes_or_default(parse_number(trim(line)), default)
}

/// What a [`SessionConfig`] holds, as numbers.
pub struct ConfigModel {
    pub work_minutes: nat,
    pub break_minutes: nat,
}

impl ConfigModel {
    /// Both lengths are positive.
    pub open spec fn valid(self) -> bool {
        self.work_minutes > 0 && self.break_minutes > 0
    }

    /// The length in minutes of a session of the given kind.
    pub open spec fn minutes_for(self, kind: SessionKind) -> nat {
        match kind {
            SessionKind::Work => self.work_minutes,
            SessionKind::Break => self.break_minutes,
        }
    }
}

/// The lengths of work sessions and breaks, in whole minutes, both positive.
#[derive(Clone, Copy, Debug, PartialEq, Eq, Structural)]
pub struct SessionConfig {
    work_minutes: u64,
    break_minutes: u64,
}

impl View for SessionConfig {
    type V = ConfigModel;

    closed spec fn view(&self) -> ConfigModel {
        ConfigModel {
            work_minutes: self.work_minutes as nat,
            break_minutes: self.break_minutes as nat,
        }
    }
}

impl SessionConfig {
    #[verifier::type_invariant]
    spec fn lengths_positive(self) -> bool {
        self.work_minutes > 0 && self.break_minutes > 0
    }

    /// A configuration with the given lengths, if both are positive.
    pub fn new(work_minutes: u64, break_minutes: u64) -> (config: Option<SessionConfig>)
        ensures
            config is Some <==> work_minutes > 0 && break_minutes > 0,
            config is Some ==> config->0@ == (ConfigModel {
                work_minutes: work_minutes as nat,
                break_minutes: break_minutes as nat,
            }),
    {
        if work_minutes > 0 && break_minutes > 0 {
            Some(SessionConfig { work_minutes, break_minutes })
        } else {
            None
        }
    }

    /// The configuration that two entries ask for, each falling back to its
    /// default: 25 minutes of work, 5 minutes of break.
    pub fn from_entries(work: Option<u64>, rest: Option<u64>) -> (config: SessionConfig)
        ensures
            config@ == (ConfigModel {
                work_minutes: chosen_minutes(work, DEFAULT_WORK_MINUTES) as nat,
                break_minutes: chosen_minutes(rest, DEFAULT_BREAK_MINUTES) as nat,
            }),
    {
        SessionConfig {
            work_minutes: minutes_or_default(work, DEFAULT_WORK_MINUTES),
            break_minutes: minutes_or_default(rest, DEFAULT_BREAK_MINUTES),
        }
    }

    /// The configuration that two lines of input ask for, the first for work
    /// and the second for breaks.
    pub fn from_lines(work_line: &str, break_line: &str) -> (config: SessionConfig)
        ensures
            config@ == (ConfigModel {
                work_minutes: chosen_minutes(
                    parsed_number(trimmed(work_line@)),
                    DEFAULT_WORK_MINUTES,
                ) as nat,
                break_minutes: chosen_minutes(
                    parsed_number(trimmed(break_line@)),
                    DEFAULT_BREAK_MINUTES,
                ) as nat,
            }),
    {
        SessionConfig {
            work_minutes: read_minutes(work_line, DEFAULT_WORK_MINUTES),
            break_minutes: read_minutes(break_line, DEFAULT_BREAK_MINUTES),
        }
    }

    /// The length of a work session in minutes.
    pub fn work_minutes(&self) -> (minutes: u64)
        ensures
            minutes == self@.work_minutes,
            minutes > 0,
    {
        proof {
            use_type_invariant(self);
        }
        self.work_minutes
    }

    /// The length of a break in minutes.
    pub fn break_minutes(&self) -> (minutes: u64)
        ensures
            minutes == self@.break_minutes,
            minutes > 0,
    {
        proof {
            use_type_invariant(self);
        }
        self.break_minutes
    }

    /// The length in minutes of a session of the given kind.
    pub fn minutes_for(&self, kind: SessionKind) -> (minutes: u64)
        ensures
            minutes == self@.minutes_for(kind),
            minutes > 0,
    {
        proof {
            use_type_invariant(self);
        }
        match kind {
            SessionKind::Work => self.work_minutes,
            SessionKind::Break => self.break_minutes,
        }
    }
}

impl Default for SessionConfig {
    /// 25 minutes of work, 5 minutes of break.
    fn default() -> (config: SessionConfig)
        ensures
            config@ == (ConfigModel { work_minutes: 25, break_minutes: 5 }),
    {
        SessionConfig {
            work_minutes: DEFAULT_WORK_MINUTES,
            break_minutes: DEFAULT_BREAK_MINUTES,
        }
    }
}

} // verus!
