//! Elapsed time within a session and the time that remains of it.

use vstd::prelude::*;

verus! {

/// Nanoseconds in one second.
pub const NANOS_PER_SECOND: u128 = 1_000_000_000;

/// Seconds in one minute.
pub const SECONDS_PER_MINUTE: u128 = 60;

/// Length of one countdown tick, in milliseconds.
pub const TICK_MILLIS: u64 = 1_000;

/// Length of one idle wait while no session runs, in milliseconds.
pub const IDLE_MILLIS: u64 = 100;

/// The length of a session of `minutes` minutes, in nanoseconds.
pub open spec fn session_nanos(minutes: nat) -> nat {
    minutes * 60 * 1_000_000_000
}

/// The whole seconds that remain of a session of `minutes` minutes once
/// `elapsed` nanoseconds of it have passed: the difference rounded down, and
/// zero from the moment the session's length is reached.
pub open spec fn remaining_seconds(minutes: nat, elapsed: nat) -> nat {
    if elapsed >= session_nanos(minutes) {
        0
    } else {
        ((session_nanos(minutes) - elapsed) / 1_000_000_000) as nat
    }
}

/// Time since the current session began, to the nanosecond.
#[derive(Clone, Copy, Debug, PartialEq, Eq, Structural)]
pub struct Elapsed {
    nanos: u128,
}

impl View for Elapsed {
    type V = nat;

    /// The elapsed time in nanoseconds.
    closed spec fn view(&self) -> nat {
        self.nanos as nat
    }
}

impl Elapsed {
    /// No time at all: the reading at the start of a session.
    pub fn zero() -> (e: Elapsed)
        ensures
            e@ == 0,
    {
        Elapsed { nanos: 0 }
    }

    /// An elapsed time of `nanos` nanoseconds.
    pub fn from_nanos(nanos: u128) -> (e: Elapsed)
        ensures
            e@ == nanos,
    {
        Elapsed { nanos }
    }

    /// An elapsed time of `millis` milliseconds.
    pub fn from_millis(millis: u64) -> (e: Elapsed)
        ensures
            e@ == millis * 1_000_000,
    {
        Elapsed { nanos: millis as u128 * 1_000_000 }
    }

    /// An elapsed time of `secs` whole seconds.
    pub fn from_secs(secs: u64) -> (e: Elapsed)
        ensures
            e@ == secs * 1_000_000_000,
    {
        Elapsed { nanos: secs as u128 * NANOS_PER_SECOND }
    }

    /// The elapsed time in nanoseconds.
    pub fn as_nanos(&self) -> (n: u128)
        ensures
            n == self@,
    {
        self.nanos
    }

    /// The later of two readings. A clock that is asked twice never yields
    /// less the second time; taking the later reading keeps that true of the
    /// timer's own elapsed time whatever the clock reports.
    pub fn later(self, other: Elapsed) -> (e: Elapsed)
        ensures
            e@ == if self@ >= other@ { self@ } else { other@ },
    {
        if self.nanos >= other.nanos {
            self
        } else {
            other
        }
    }

    /// Whether a session of `minutes` minutes is over at this reading.
    pub fn reached(&self, minutes: u64) -> (over: bool)
        ensures
            over == (self@ >= session_nanos(minutes as nat)),
    {
        self.nanos >= session_length(minutes)
    }
}

/// The length of a session of `minutes` minutes, in nanoseconds.
pub fn session_length(minutes: u64) -> (nanos: u128)
    ensures
        nanos == session_nanos(minutes as nat),
{
    minutes as u128 * SECONDS_PER_MINUTE * NANOS_PER_SECOND
}

/// Time left in a session, as shown to the user: whole minutes and the
/// seconds beyond them.
#[derive(Clone, Copy, Debug, PartialEq, Eq, Structural)]
pub struct Remaining {
    minutes: u64,
    seconds: u64,
}

impl View for Remaining {
    type V = nat;

    /// The time left in whole seconds.
    closed spec fn view(&self) -> nat {
        (self.minutes * 60 + self.seconds) as nat
    }
}

impl Remaining {
    #[verifier::type_invariant]
    spec fn seconds_below_a_minute(self) -> bool {
        self.seconds < 60
    }

    /// The time left of a session of `minutes` minutes after `elapsed`.
    pub fn of(minutes: u64, elapsed: Elapsed) -> (r: Remaining)
        ensures
            r@ == remaining_seconds(minutes as nat, elapsed@),
    {
        let length: u128 = session_length(minutes);
        if elapsed.nanos >= length {
            Remaining { minutes: 0, seconds: 0 }
        } else {
            let left: u128 = (length - elapsed.nanos) / NANOS_PER_SECOND;
            assert(left <= minutes * 60);
            let whole: u128 = left / SECONDS_PER_MINUTE;
            let rest: u128 = left % SECONDS_PER_MINUTE;
            Remaining { minutes: whole as u64, seconds: rest as u64 }
        }
    }

    /// The whole minutes left.
    pub fn minutes(&self) -> (m: u64)
        ensures
            m == self@ / 60,
    {
        proof {
            use_type_invariant(self);
        }
        self.minutes
    }

    /// The seconds left beyond the whole minutes: always below 60.
    pub fn seconds(&self) -> (s: u64)
        ensures
            s == self@ % 60,
            s < 60,
    {
        proof {
            use_type_invariant(self);
        }
        self.seconds
    }
}

/// The time left counts down with the time elapsed: after `t` whole seconds
/// of a session of `minutes` minutes, `minutes * 60 - t` seconds are left,
/// for every `t` up to the session's length.
pub proof fn law_remaining_counts_down(minutes: nat, t: nat)
    requires
        t <= minutes * 60,
    ensures
        remaining_seconds(minutes, t * 1_000_000_000) == minutes * 60 - t,
{
    assert((minutes * 60 * 1_000_000_000 - t * 1_000_000_000) == (minutes * 60 - t)
        * 1_000_000_000) by (nonlinear_arith);
    assert(((minutes * 60 - t) * 1_000_000_000) / 1_000_000_000 == minutes * 60 - t)
        by (nonlinear_arith);
}

} // verus!
