//! The timer loop as a step machine.
//!
//! The program around the library owns the clock, the command channel and
//! the shutdown signal. It hands the timer one [`Event`] at a time and gets
//! back the [`Action`] to perform, which also says which event is due next.
//! The timer decides everything else: which session runs, when it is over,
//! what is announced, and when the loop ends.
//!
//! Two choices are fixed here. A paused timer stays paused: `Resume` is read
//! and has no effect, and only the shutdown signal ends the wait. A skipped
//! session counts as a session: it moves the timer on to the other kind and
//! raises the session counter, without an announcement that it finished.

use vstd::prelude::*;
use crate::clock::Elapsed;
use crate::clock::IDLE_MILLIS;
use crate::clock::Remaining;
use crate::clock::TICK_MILLIS;
use crate::clock::remaining_seconds;
use crate::clock::session_nanos;
use crate::command::Poll;
use crate::command::TimerCommand;
use crate::config::ConfigModel;
use crate::config::SessionConfig;
use crate::config::SessionKind;

verus! {

/// What the timer is doing.
#[derive(Clone, Copy, Debug, PartialEq, Eq, Structural)]
pub enum TimerState {
    /// In, or about to begin, a work session.
    Work,
    /// In, or about to begin, a break.
    Break,
    /// Paused by the user.
    Paused,
    /// Stopped for good. No step of the timer enters this state.
    Stopped,
}

impl TimerState {
    /// The kind of session that runs in this state, if one does.
    pub open spec fn kind(self) -> Option<SessionKind> {
        match self {
            TimerState::Work => Some(SessionKind::Work),
            TimerState::Break => Some(SessionKind::Break),
            TimerState::Paused | TimerState::Stopped => None,
        }
    }

    /// The state after a session in this state has ended: work and break
    /// change places, the other two states stay.
    pub open spec fn advanced(self) -> TimerState {
        match self {
            TimerState::Work => TimerState::Break,
            TimerState::Break => TimerState::Work,
            TimerState::Paused => TimerState::Paused,
            TimerState::Stopped => TimerState::Stopped,
        }
    }

    /// The kind of session that runs in this state, if one does.
    pub fn session_kind(self) -> (kind: Option<SessionKind>)
        ensures
            kind == self.kind(),
    {
        match self {
            TimerState::Work => Some(SessionKind::Work),
            TimerState::Break => Some(SessionKind::Break),
            TimerState::Paused | TimerState::Stopped => None,
        }
    }

    /// The state after a session in this state has ended.
    pub fn advance(self) -> (state: TimerState)
        ensures
            state == self.advanced(),
    {
        match self {
            TimerState::Work => TimerState::Break,
            TimerState::Break => TimerState::Work,
            TimerState::Paused => TimerState::Paused,
            TimerState::Stopped => TimerState::Stopped,
        }
    }
}

/// Where in its loop the timer stands, named by what it waits for.
#[derive(Clone, Copy, Debug, PartialEq, Eq, Structural)]
pub enum Phase {
    /// Between sessions, or paused: waits for a reading of the shutdown
    /// signal.
    Ready,
    /// In a session, the time left just shown: waits for a look at the
    /// command channel.
    Polling,
    /// In a session, one tick going by: waits for a reading of the clock.
    Ticking,
    /// The countdown is over or was skipped: waits for a reading of the
    /// shutdown signal.
    Closing,
    /// The loop has ended. Nothing is waited for.
    Halted,
}

/// The kinds of observation that the timer can wait for.
#[derive(Clone, Copy, Debug, PartialEq, Eq, Structural)]
pub enum Due {
    /// A reading of the shutdown signal.
    Signal,
    /// A look at the command channel.
    Poll,
    /// A reading of the clock.
    Clock,
    /// Nothing: the loop has ended.
    Nothing,
}

impl Phase {
    /// The kind of observation that is waited for in this phase.
    pub open spec fn due(self) -> Due {
        match self {
            Phase::Ready | Phase::Closing => Due::Signal,
            Phase::Polling => Due::Poll,
            Phase::Ticking => Due::Clock,
            Phase::Halted => Due::Nothing,
        }
    }

    /// The kind of observation that is waited for in this phase.
    pub fn awaits(self) -> (due: Due)
        ensures
            due == self.due(),
    {
        match self {
            Phase::Ready | Phase::Closing => Due::Signal,
            Phase::Polling => Due::Poll,
            Phase::Ticking => Due::Clock,
            Phase::Halted => Due::Nothing,
        }
    }
}

/// What the program has observed for the timer.
#[derive(Clone, Copy, Debug, PartialEq, Eq, Structural)]
pub enum Event {
    /// The shutdown signal as just read.
    Signal { shutdown: bool },
    /// What a look at the command channel found.
    Polled(Poll),
    /// The time since the session's start, read after one tick.
    Clock(Elapsed),
}

impl Event {
    /// The kind of observation that this event reports.
    pub open spec fn kind(self) -> Due {
        match self {
            Event::Signal { .. } => Due::Signal,
            Event::Polled(_) => Due::Poll,
            Event::Clock(_) => Due::Clock,
        }
    }
}

/// What the program is to do next. Each action names the event that the
/// timer expects after it.
#[derive(Clone, Copy, Debug, PartialEq, Eq, Structural)]
pub enum Action {
    /// The shutdown signal was seen raised: leave the loop.
    Halt,
    /// Quit was received, or the sending side is gone: raise the shutdown
    /// signal and leave the loop.
    Shutdown,
    /// No session runs: wait one idle interval, then read the shutdown
    /// signal.
    Idle,
    /// A session begins: note the time as its start, announce it under its
    /// kind and ordinal, show the time left, then look at the command
    /// channel.
    StartSession { kind: SessionKind, ordinal: u64, remaining: Remaining },
    /// Show the time left, then look at the command channel.
    ShowRemaining { remaining: Remaining },
    /// Wait one tick, then read the clock.
    Tick,
    /// Tell the user that the timer is paused, then read the shutdown
    /// signal.
    AnnouncePause,
    /// Tell the user that the session is skipped, then read the shutdown
    /// signal.
    AnnounceSkip,
    /// The session's time is up: read the shutdown signal.
    CountdownOver,
    /// Announce that the session of this kind has finished, then read the
    /// shutdown signal.
    AnnounceFinished { kind: SessionKind },
    /// The skipped session is behind: read the shutdown signal.
    Proceed,
}

/// An [`Action`] with its numbers as mathematical integers: the ordinal,
/// and the time left in whole seconds.
pub enum ActionModel {
    Halt,
    Shutdown,
    Idle,
    StartSession { kind: SessionKind, ordinal: nat, remaining: nat },
    ShowRemaining { remaining: nat },
    Tick,
    AnnouncePause,
    AnnounceSkip,
    CountdownOver,
    AnnounceFinished { kind: SessionKind },
    Proceed,
}

impl ActionModel {
    /// The kind of observation that the timer waits for after this action.
    pub open spec fn asks_for(self) -> Due {
        match self {
            ActionModel::Halt | ActionModel::Shutdown => Due::Nothing,
            ActionModel::StartSession { .. } | ActionModel::ShowRemaining { .. } => Due::Poll,
            ActionModel::Tick => Due::Clock,
            ActionModel::Idle
            | ActionModel::AnnouncePause
            | ActionModel::AnnounceSkip
            | ActionModel::CountdownOver
            | ActionModel::AnnounceFinished { .. }
            | ActionModel::Proceed => Due::Signal,
        }
    }

    /// The milliseconds to wait as part of this action: one tick for
    /// `Tick`, one idle interval for `Idle`, none for the others.
    pub open spec fn wait_millis(self) -> nat {
        match self {
            ActionModel::Tick => 1_000,
            ActionModel::Idle => 100,
            _ => 0,
        }
    }
}

impl View for Action {
    type V = ActionModel;

    open spec fn view(&self) -> ActionModel {
        match *self {
            Action::Halt => ActionModel::Halt,
            Action::Shutdown => ActionModel::Shutdown,
            Action::Idle => ActionModel::Idle,
            Action::StartSession { kind, ordinal, remaining } => ActionModel::StartSession {
                kind,
                ordinal: ordinal as nat,
                remaining: remaining@,
            },
            Action::ShowRemaining { remaining } => ActionModel::ShowRemaining {
                remaining: remaining@,
            },
            Action::Tick => ActionModel::Tick,
            Action::AnnouncePause => ActionModel::AnnouncePause,
            Action::AnnounceSkip => ActionModel::AnnounceSkip,
            Action::CountdownOver => ActionModel::CountdownOver,
            Action::AnnounceFinished { kind } => ActionModel::AnnounceFinished { kind },
            Action::Proceed => ActionModel::Proceed,
        }
    }
}

impl Action {
    /// The kind of observation that the timer waits for after this action.
    pub fn asks_for(&self) -> (due: Due)
        ensures
            due == self@.asks_for(),
    {
        match self {
            Action::Halt | Action::Shutdown => Due::Nothing,
            Action::StartSession { .. } | Action::ShowRemaining { .. } => Due::Poll,
            Action::Tick => Due::Clock,
            Action::Idle
            | Action::AnnouncePause
            | Action::AnnounceSkip
            | Action::CountdownOver
            | Action::AnnounceFinished { .. }
            | Action::Proceed => Due::Signal,
        }
    }

    /// The milliseconds to wait as part of this action: one tick for
    /// `Tick`, one idle interval for `Idle`, none for the others.
    pub fn wait_millis(&self) -> (millis: u64)
        ensures
            millis == self@.wait_millis(),
    {
        match self {
            Action::Tick => TICK_MILLIS,
            Action::Idle => IDLE_MILLIS,
            _ => 0,
        }
    }
}

/// The timer as a mathematical value.
pub struct TimerModel {
    /// The configured session lengths.
    pub config: ConfigModel,
    /// What the timer is doing.
    pub state: TimerState,
    /// The sessions that are behind: finished or skipped.
    pub sessions: nat,
    /// Nanoseconds since the current session began.
    pub elapsed: nat,
    /// Where in its loop the timer stands.
    pub phase: Phase,
}

impl TimerModel {
    /// The timer before its first step: about to begin the first work
    /// session.
    pub open spec fn initial(config: ConfigModel) -> TimerModel {
        TimerModel {
            config,
            state: TimerState::Work,
            sessions: 0,
            elapsed: 0,
            phase: Phase::Ready,
        }
    }

    /// The length in nanoseconds of the session that runs in the timer's
    /// state; zero where none does.
    pub open spec fn length(self) -> nat {
        match self.state.kind() {
            Some(kind) => session_nanos(self.config.minutes_for(kind)),
            None => 0,
        }
    }

    /// The whole seconds left of the session that runs in the timer's state.
    pub open spec fn remaining(self) -> nat {
        match self.state.kind() {
            Some(kind) => remaining_seconds(self.config.minutes_for(kind), self.elapsed),
            None => 0,
        }
    }

    /// What holds of the timer at every moment. The session lengths are
    /// positive. The timer is never stopped. Work sessions are those after an
    /// even number of sessions, breaks those after an odd number. While the
    /// timer counts down, a session runs and its time is not yet up.
    pub open spec fn inv(self) -> bool {
        &&& self.config.valid()
        &&& self.state != TimerState::Stopped
        &&& self.state == TimerState::Work ==> self.sessions % 2 == 0
        &&& self.state == TimerState::Break ==> self.sessions % 2 == 1
        &&& self.phase == Phase::Closing ==> self.state.kind() is Some
        &&& self.phase == Phase::Polling || self.phase == Phase::Ticking ==> {
            &&& self.state.kind() is Some
            &&& self.elapsed < self.length()
        }
    }

    /// Whether `event` is the one that the timer waits for.
    pub open spec fn accepts(self, event: Event) -> bool {
        self.phase.due() == event.kind()
    }

    /// The elapsed time after the clock was read: the reading, or the time
    /// known before where the reading falls behind it.
    pub open spec fn elapsed_after(self, reading: Elapsed) -> nat {
        if reading@ >= self.elapsed {
            reading@
        } else {
            self.elapsed
        }
    }

    /// The timer after `event`. An event that the timer does not wait for
    /// leaves it as it is.
    pub open spec fn next(self, event: Event) -> TimerModel {
        match (self.phase, event) {
            (Phase::Ready, Event::Signal { shutdown }) => {
                if shutdown {
                    TimerModel { phase: Phase::Halted, ..self }
                } else if self.state.kind() is Some {
                    TimerModel { elapsed: 0, phase: Phase::Polling, ..self }
                } else {
                    self
                }
            },
            (Phase::Polling, Event::Polled(poll)) => {
                match poll {
                    Poll::Command(TimerCommand::Pause) => TimerModel {
                        state: TimerState::Paused,
                        phase: Phase::Ready,
                        ..self
                    },
                    Poll::Command(TimerCommand::Skip) => TimerModel {
                        phase: Phase::Closing,
                        ..self
                    },
                    Poll::Command(TimerCommand::Quit) | Poll::Disconnected => TimerModel {
                        phase: Phase::Halted,
                        ..self
                    },
                    Poll::Command(TimerCommand::Resume) | Poll::Empty => TimerModel {
                        phase: Phase::Ticking,
                        ..self
                    },
                }
            },
            (Phase::Ticking, Event::Clock(reading)) => {
                let elapsed = self.elapsed_after(reading);
                TimerModel {
                    elapsed,
                    phase: if elapsed < self.length() {
                        Phase::Polling
                    } else {
                        Phase::Closing
                    },
                    ..self
                }
            },
            (Phase::Closing, Event::Signal { shutdown }) => {
                if shutdown {
                    TimerModel { phase: Phase::Halted, ..self }
                } else {
                    TimerModel {
                        state: self.state.advanced(),
                        sessions: self.sessions + 1,
                        phase: Phase::Ready,
                        ..self
                    }
                }
            },
            _ => self,
        }
    }

    /// The action that answers `event`; none where the timer does not wait
    /// for it.
    pub open spec fn action(self, event: Event) -> Option<ActionModel> {
        match (self.phase, event) {
            (Phase::Ready, Event::Signal { shutdown }) => {
                if shutdown {
                    Some(ActionModel::Halt)
                } else {
                    match self.state.kind() {
                        Some(kind) => Some(
                            ActionModel::StartSession {
                                kind,
                                ordinal: self.sessions + 1,
                                remaining: remaining_seconds(self.config.minutes_for(kind), 0),
                            },
                        ),
                        None => Some(ActionModel::Idle),
                    }
                }
            },
            (Phase::Polling, Event::Polled(poll)) => {
                match poll {
                    Poll::Command(TimerCommand::Pause) => Some(ActionModel::AnnouncePause),
                    Poll::Command(TimerCommand::Skip) => Some(ActionModel::AnnounceSkip),
                    Poll::Command(TimerCommand::Quit) | Poll::Disconnected => Some(
                        ActionModel::Shutdown,
                    ),
                    Poll::Command(TimerCommand::Resume) | Poll::Empty => Some(ActionModel::Tick),
                }
            },
            (Phase::Ticking, Event::Clock(reading)) => {
                if self.elapsed_after(reading) < self.length() {
                    Some(ActionModel::ShowRemaining { remaining: self.next(event).remaining() })
                } else {
                    Some(ActionModel::CountdownOver)
                }
            },
            (Phase::Closing, Event::Signal { shutdown }) => {
                if shutdown {
                    Some(ActionModel::Halt)
                } else {
                    match self.state.kind() {
                        Some(kind) if self.elapsed >= self.length() => Some(
                            ActionModel::AnnounceFinished { kind },
                        ),
                        _ => Some(ActionModel::Proceed),
                    }
                }
            },
            _ => None,
        }
    }

    /// The timer after the events of `events`, in order.
    pub open spec fn run(self, events: Seq<Event>) -> TimerModel
        decreases events.len(),
    {
        if events.len() == 0 {
            self
        } else {
            self.run(events.drop_last()).next(events.last())
        }
    }

    /// The action that answers event number `i` of `events`, counted from
    /// zero, when the timer is handed the events in order.
    pub open spec fn answer(self, events: Seq<Event>, i: int) -> Option<ActionModel> {
        self.run(events.take(i)).action(events[i])
    }

    /// How many of the events of `events` are answered by the start of a
    /// session.
    pub open spec fn started(self, events: Seq<Event>) -> nat
        decreases events.len(),
    {
        if events.len() == 0 {
            0
        } else {
            let before = self.started(events.drop_last());
            match self.run(events.drop_last()).action(events.last()) {
                Some(ActionModel::StartSession { .. }) => before + 1,
                _ => before,
            }
        }
    }

    /// How many of the events of `events` are answered by the announcement
    /// that a session has finished.
    pub open spec fn finished(self, events: Seq<Event>) -> nat
        decreases events.len(),
    {
        if events.len() == 0 {
            0
        } else {
            let before = self.finished(events.drop_last());
            match self.run(events.drop_last()).action(events.last()) {
                Some(ActionModel::AnnounceFinished { .. }) => before + 1,
                _ => before,
            }
        }
    }

    /// How many of the events of `events` are answered by going on after a
    /// skipped session.
    pub open spec fn skipped(self, events: Seq<Event>) -> nat
        decreases events.len(),
    {
        if events.len() == 0 {
            0
        } else {
            let before = self.skipped(events.drop_last());
            match self.run(events.drop_last()).action(events.last()) {
                Some(ActionModel::Proceed) => before + 1,
                _ => before,
            }
        }
    }
}

/// The timer: its configuration, its state, the sessions behind it, the
/// time elapsed in the current session, and its place in the loop.
#[derive(Clone, Copy, Debug, PartialEq, Eq, Structural)]
pub struct Timer {
    config: SessionConfig,
    state: TimerState,
    sessions: u64,
    elapsed: Elapsed,
    phase: Phase,
}

impl View for Timer {
    type V = TimerModel;

    closed spec fn view(&self) -> TimerModel {
        TimerModel {
            config: self.config@,
            state: self.state,
            sessions: self.sessions as nat,
            elapsed: self.elapsed@,
            phase: self.phase,
        }
    }
}

impl Timer {
    #[verifier::type_invariant]
    spec fn well_formed(self) -> bool {
        self@.inv()
    }

    /// A timer about to begin its first work session.
    pub fn new(config: SessionConfig) -> (timer: Timer)
        ensures
            timer@ == TimerModel::initial(config@),
            timer@.inv(),
    {
        // Reading the lengths brings their contract along: both are positive,
        // as the timer's invariant asks.
        let _ = config.work_minutes();
        let _ = config.break_minutes();
        Timer {
            config,
            state: TimerState::Work,
            sessions: 0,
            elapsed: Elapsed::zero(),
            phase: Phase::Ready,
        }
    }

    /// The configured session lengths.
    pub fn config(&self) -> (config: SessionConfig)
        ensures
            config@ == self@.config,
    {
        self.config
    }

    /// What the timer is doing.
    pub fn state(&self) -> (state: TimerState)
        ensures
            state == self@.state,
    {
        self.state
    }

    /// The sessions that are behind: finished or skipped.
    pub fn session_count(&self) -> (sessions: u64)
        ensures
            sessions == self@.sessions,
    {
        self.sessions
    }

    /// The time since the current session began, as last read.
    pub fn elapsed(&self) -> (elapsed: Elapsed)
        ensures
            elapsed@ == self@.elapsed,
    {
        self.elapsed
    }

    /// Where in its loop the timer stands.
    pub fn phase(&self) -> (phase: Phase)
        ensures
            phase == self@.phase,
    {
        self.phase
    }

    /// Whether the loop has ended.
    pub fn is_halted(&self) -> (halted: bool)
        ensures
            halted == (self@.phase == Phase::Halted),
    {
        self.phase == Phase::Halted
    }

    /// The kind of observation that the timer waits for.
    pub fn due(&self) -> (due: Due)
        ensures
            due == self@.phase.due(),
    {
        self.phase.awaits()
    }

    /// Whether `event` is the one that the timer waits for.
    pub fn accepts(&self, event: Event) -> (accepted: bool)
        ensures
            accepted == self@.accepts(event),
    {
        match (self.phase, event) {
            (Phase::Ready, Event::Signal { .. }) => true,
            (Phase::Polling, Event::Polled(_)) => true,
            (Phase::Ticking, Event::Clock(_)) => true,
            (Phase::Closing, Event::Signal { .. }) => true,
            _ => false,
        }
    }

    /// Takes one step: changes the timer as `event` demands and returns the
    /// action that answers it. [`TimerModel::next`] says what the timer is
    /// afterwards and [`TimerModel::action`] what the answer is. An event
    /// that the timer does not wait for changes nothing and is answered by
    /// `None`.
    ///
    /// The session counter must have room for one more session.
    pub fn step(&mut self, event: Event) -> (action: Option<Action>)
        requires
            old(self)@.sessions < u64::MAX,
        ensures
            final(self)@ == old(self)@.next(event),
            final(self)@.inv(),
            action is Some <==> old(self)@.accepts(event),
            action is Some ==> final(self)@.phase.due() == action->0@.asks_for(),
            match action {
                Some(a) => old(self)@.action(event) == Some(a@),
                None => old(self)@.action(event) is None,
            },
    {
        proof {
            use_type_invariant(&*self);
        }
        match (self.phase, event) {
            (Phase::Ready, Event::Signal { shutdown }) => {
                if shutdown {
                    self.phase = Phase::Halted;
                    Some(Action::Halt)
                } else {
                    match self.state.session_kind() {
                        Some(kind) => {
                            let minutes = self.config.minutes_for(kind);
                            self.elapsed = Elapsed::zero();
                            self.phase = Phase::Polling;
                            Some(
                                Action::StartSession {
                                    kind,
                                    ordinal: self.sessions + 1,
                                    remaining: Remaining::of(minutes, self.elapsed),
                                },
                            )
                        },
                        None => Some(Action::Idle),
                    }
                }
            },
            (Phase::Polling, Event::Polled(poll)) => {
                match poll {
                    Poll::Command(TimerCommand::Pause) => {
                        self.phase = Phase::Ready;
                        self.state = TimerState::Paused;
                        Some(Action::AnnouncePause)
                    },
                    Poll::Command(TimerCommand::Skip) => {
                        self.phase = Phase::Closing;
                        Some(Action::AnnounceSkip)
                    },
                    Poll::Command(TimerCommand::Quit) | Poll::Disconnected => {
                        self.phase = Phase::Halted;
                        Some(Action::Shutdown)
                    },
                    Poll::Command(TimerCommand::Resume) | Poll::Empty => {
                        self.phase = Phase::Ticking;
                        Some(Action::Tick)
                    },
                }
            },
            (Phase::Ticking, Event::Clock(reading)) => {
                match self.state.session_kind() {
                    Some(kind) => {
                        let minutes = self.config.minutes_for(kind);
                        let elapsed = self.elapsed.later(reading);
                        if elapsed.reached(minutes) {
                            self.phase = Phase::Closing;
                            self.elapsed = elapsed;
                            Some(Action::CountdownOver)
                        } else {
                            self.elapsed = elapsed;
                            self.phase = Phase::Polling;
                            Some(Action::ShowRemaining { remaining: Remaining::of(minutes, elapsed) })
                        }
                    },
                    None => {
                        // The timer waits for the clock only while a session
                        // runs, so this branch is never taken.
                        proof {
                            assert(false);
                        }
                        None
                    },
                }
            },
            (Phase::Closing, Event::Signal { shutdown }) => {
                if shutdown {
                    self.phase = Phase::Halted;
                    Some(Action::Halt)
                } else {
                    match self.state.session_kind() {
                        Some(kind) => {
                            let finished = self.elapsed.reached(self.config.minutes_for(kind));
                            *self = Timer {
                                config: self.config,
                                state: self.state.advance(),
                                sessions: self.sessions + 1,
                                elapsed: self.elapsed,
                                phase: Phase::Ready,
                            };
                            if finished {
                                Some(Action::AnnounceFinished { kind })
                            } else {
                                Some(Action::Proceed)
                            }
                        },
                        None => {
                            // A countdown is closed only for the session that
                            // ran, so this branch is never taken.
                            proof {
                                assert(false);
                            }
                            None
                        },
                    }
                }
            },
            _ => None,
        }
    }
}

} // verus!
