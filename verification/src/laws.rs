//! What holds of the timer over whole runs, proved from its steps.

use vstd::prelude::*;
use crate::clock::Elapsed;
use crate::clock::law_remaining_counts_down;
use crate::clock::remaining_seconds;
use crate::command::Poll;
use crate::command::TimerCommand;
use crate::config::ConfigModel;
use crate::config::SessionKind;
use crate::timer::ActionModel;
use crate::timer::Event;
use crate::timer::Phase;
use crate::timer::TimerModel;
use crate::timer::TimerState;

verus! {

/// Whether `event` is one that can reach the timer once the user has quit
/// and `Quit` is the next command in the channel: the shutdown signal read
/// as raised, a look at the channel that finds `Quit` or the sending side
/// gone, or any reading of the clock.
pub open spec fn comes_after_quit(event: Event) -> bool {
    match event {
        Event::Signal { shutdown } => shutdown,
        Event::Polled(poll) => poll == Poll::Command(TimerCommand::Quit) || poll
            == Poll::Disconnected,
        Event::Clock(_) => true,
    }
}

/// Whether a look at the channel in `events` finds `Skip`.
pub open spec fn holds_skip(events: Seq<Event>) -> bool {
    exists|i: int|
        0 <= i < events.len() && #[trigger] events[i] == Event::Polled(
            Poll::Command(TimerCommand::Skip),
        )
}

/// How the number of sessions begun relates to the session counter: equal
/// between sessions, one ahead from the start of a session until it is
/// closed, and one ahead for good once the timer is paused.
pub open spec fn begun_matches(timer: TimerModel, begun: nat) -> bool {
    match timer.phase {
        Phase::Ready => if timer.state.kind() is Some {
            begun == timer.sessions
        } else {
            begun == timer.sessions + 1
        },
        Phase::Polling | Phase::Ticking | Phase::Closing => begun == timer.sessions + 1,
        Phase::Halted => true,
    }
}

/// One more event: the run over the first `i + 1` events is the run over
/// the first `i`, then one step.
pub proof fn lemma_run_one_more(timer: TimerModel, events: Seq<Event>, i: int)
    requires
        0 <= i < events.len(),
    ensures
        timer.run(events.take(i + 1)) == timer.run(events.take(i)).next(events[i]),
        timer.started(events.take(i + 1)) == timer.started(events.take(i)) + (if timer.answer(
            events,
            i,
        ) is Some && timer.answer(events, i)->0 is StartSession {
            1nat
        } else {
            0nat
        }),
{
    assert(events.take(i + 1).drop_last() =~= events.take(i));
    assert(events.take(i + 1).last() == events[i]);
}

/// Every step keeps the timer's invariant.
pub proof fn law_step_keeps_invariant(timer: TimerModel, event: Event)
    requires
        timer.inv(),
    ensures
        timer.next(event).inv(),
{
}

/// Every run keeps the timer's invariant. In particular the timer is never
/// in the state `Stopped`.
pub proof fn law_run_keeps_invariant(timer: TimerModel, events: Seq<Event>)
    requires
        timer.inv(),
    ensures
        timer.run(events).inv(),
        timer.run(events).state != TimerState::Stopped,
    decreases events.len(),
{
    if events.len() > 0 {
        law_run_keeps_invariant(timer, events.drop_last());
        law_step_keeps_invariant(timer.run(events.drop_last()), events.last());
    }
}

/// The first session is a work session, announced as number one with its
/// full length left.
pub proof fn law_first_session_is_work(config: ConfigModel)
    requires
        config.valid(),
    ensures
        TimerModel::initial(config).action(Event::Signal { shutdown: false }) == Some(
            ActionModel::StartSession {
                kind: SessionKind::Work,
                ordinal: 1,
                remaining: config.work_minutes * 60,
            },
        ),
{
    law_remaining_counts_down(config.work_minutes, 0);
}

/// Throughout a run from the start, the sessions begun and the session
/// counter stay in step.
proof fn lemma_begun_matches(config: ConfigModel, events: Seq<Event>)
    requires
        config.valid(),
    ensures
        TimerModel::initial(config).run(events).inv(),
        begun_matches(
            TimerModel::initial(config).run(events),
            TimerModel::initial(config).started(events),
        ),
    decreases events.len(),
{
    let timer = TimerModel::initial(config);
    if events.len() > 0 {
        lemma_begun_matches(config, events.drop_last());
    }
}

/// Sessions alternate, beginning with work. In any run from the start, the
/// session that begins as number `k` is announced with the ordinal `k`, and
/// it is a work session where `k` is odd and a break where `k` is even.
/// Pauses, skips and the order of events make no difference to this.
pub proof fn law_sessions_alternate(config: ConfigModel, events: Seq<Event>, i: int)
    requires
        config.valid(),
        0 <= i < events.len(),
        TimerModel::initial(config).answer(events, i) is Some,
        TimerModel::initial(config).answer(events, i)->0 is StartSession,
    ensures
        ({
            let timer = TimerModel::initial(config);
            let begun = timer.started(events.take(i + 1));
            &&& timer.answer(events, i)->0->ordinal == begun
            &&& timer.answer(events, i)->0->StartSession_kind == if begun % 2 == 1 {
                SessionKind::Work
            } else {
                SessionKind::Break
            }
        }),
{
    let timer = TimerModel::initial(config);
    lemma_begun_matches(config, events.take(i));
    lemma_run_one_more(timer, events, i);
}

/// One step leaves the session counter as it is or raises it by one. It
/// raises it exactly when it closes a session: when the answer announces
/// that the session has finished, or goes on after a skipped one. It never
/// raises it while the timer is paused.
pub proof fn law_counter_steps(timer: TimerModel, event: Event)
    requires
        timer.inv(),
    ensures
        timer.next(event).sessions == timer.sessions || timer.next(event).sessions
            == timer.sessions + 1,
        timer.next(event).sessions == timer.sessions + 1 <==> timer.action(event) is Some && (
        timer.action(event)->0 is AnnounceFinished || timer.action(event)->0 is Proceed),
        timer.state == TimerState::Paused ==> timer.next(event).sessions == timer.sessions,
{
}

/// The session counter never decreases: later in a run it is no less than
/// earlier.
pub proof fn law_counter_never_decreases(timer: TimerModel, events: Seq<Event>, i: int)
    requires
        timer.inv(),
        0 <= i <= events.len(),
    ensures
        timer.run(events.take(i)).sessions <= timer.run(events).sessions,
    decreases events.len() - i,
{
    if i == events.len() {
        assert(events.take(i) =~= events);
    } else {
        law_counter_never_decreases(timer, events, i + 1);
        lemma_run_one_more(timer, events, i);
        law_run_keeps_invariant(timer, events.take(i));
        law_counter_steps(timer.run(events.take(i)), events[i]);
    }
}

/// The session counter counts the sessions closed: after a run it has grown
/// by the number of sessions announced as finished plus the number skipped.
pub proof fn law_counter_counts_sessions(timer: TimerModel, events: Seq<Event>)
    requires
        timer.inv(),
    ensures
        timer.run(events).sessions == timer.sessions + timer.finished(events) + timer.skipped(
            events,
        ),
    decreases events.len(),
{
    if events.len() > 0 {
        law_counter_counts_sessions(timer, events.drop_last());
        law_run_keeps_invariant(timer, events.drop_last());
        law_counter_steps(timer.run(events.drop_last()), events.last());
    }
}

/// In a run from the start in which no `Skip` is received, a countdown is
/// only left for closing when its time is up.
proof fn lemma_closing_means_time_is_up(config: ConfigModel, events: Seq<Event>)
    requires
        config.valid(),
        !holds_skip(events),
    ensures
        ({
            let timer = TimerModel::initial(config).run(events);
            &&& timer.inv()
            &&& timer.phase == Phase::Closing ==> timer.elapsed >= timer.length()
        }),
        TimerModel::initial(config).skipped(events) == 0,
    decreases events.len(),
{
    if events.len() > 0 {
        let earlier = events.drop_last();
        assert(!holds_skip(earlier)) by {
            if holds_skip(earlier) {
                let i = choose|i: int|
                    0 <= i < earlier.len() && #[trigger] earlier[i] == Event::Polled(
                        Poll::Command(TimerCommand::Skip),
                    );
                assert(events[i] == earlier[i]);
            }
        }
        lemma_closing_means_time_is_up(config, earlier);
        assert(events[events.len() - 1] == events.last());
    }
}

/// Without skips the session counter counts natural completions: in a run
/// from the start in which no `Skip` is received, it equals the number of
/// sessions announced as finished.
pub proof fn law_counter_counts_finished_sessions(config: ConfigModel, events: Seq<Event>)
    requires
        config.valid(),
        !holds_skip(events),
    ensures
        TimerModel::initial(config).run(events).sessions == TimerModel::initial(config).finished(
            events,
        ),
{
    lemma_closing_means_time_is_up(config, events);
    law_counter_counts_sessions(TimerModel::initial(config), events);
}

/// The countdown ends exactly when the elapsed time reaches the session's
/// length. When the clock is read after a tick, the elapsed time does not
/// go back; the countdown goes on if the time is short of the length and is
/// over if not; and if the reading is no more than `tick` after the one
/// before, the countdown is over less than `tick` after the length was
/// reached.
pub proof fn law_countdown_ends_on_time(timer: TimerModel, reading: Elapsed, tick: nat)
    requires
        timer.inv(),
        timer.phase == Phase::Ticking,
    ensures
        ({
            let after = timer.next(Event::Clock(reading));
            &&& after.elapsed >= timer.elapsed
            &&& after.elapsed >= reading@
            &&& after.phase == Phase::Polling <==> after.elapsed < timer.length()
            &&& after.phase == Phase::Closing <==> after.elapsed >= timer.length()
            &&& timer.action(Event::Clock(reading)) == Some(ActionModel::CountdownOver)
                <==> after.elapsed >= timer.length()
            &&& reading@ <= timer.elapsed + tick ==> after.elapsed < timer.length() + tick
        }),
{
}

/// While the countdown goes on, the time shown is the whole seconds that
/// are left of the session.
pub proof fn law_shown_time_is_time_left(timer: TimerModel, reading: Elapsed)
    requires
        timer.inv(),
        timer.phase == Phase::Ticking,
        timer.elapsed_after(reading) < timer.length(),
    ensures
        timer.action(Event::Clock(reading)) == Some(
            ActionModel::ShowRemaining {
                remaining: remaining_seconds(
                    timer.config.minutes_for(timer.state.kind()->0),
                    timer.elapsed_after(reading),
                ),
            },
        ),
{
}

/// `Quit` ends the loop at once, and so does a channel whose sending side is
/// gone: the timer halts and asks for the shutdown signal to be raised. The
/// state and the session counter stay as they are.
pub proof fn law_quit_ends_the_loop(timer: TimerModel, poll: Poll)
    requires
        timer.phase == Phase::Polling,
        poll == Poll::Command(TimerCommand::Quit) || poll == Poll::Disconnected,
    ensures
        timer.action(Event::Polled(poll)) == Some(ActionModel::Shutdown),
        timer.next(Event::Polled(poll)) == (TimerModel { phase: Phase::Halted, ..timer }),
{
}

/// A raised shutdown signal ends the loop the moment it is read.
pub proof fn law_raised_signal_ends_the_loop(timer: TimerModel)
    requires
        timer.phase == Phase::Ready || timer.phase == Phase::Closing,
    ensures
        timer.action(Event::Signal { shutdown: true }) == Some(ActionModel::Halt),
        timer.next(Event::Signal { shutdown: true }) == (TimerModel {
            phase: Phase::Halted,
            ..timer
        }),
{
}

/// A halted timer stays halted: no event changes it, and none is answered.
pub proof fn law_halted_is_final(timer: TimerModel, events: Seq<Event>, i: int)
    requires
        timer.phase == Phase::Halted,
        0 <= i < events.len(),
    ensures
        timer.run(events) == timer,
        timer.answer(events, i) is None,
{
    lemma_halted_run(timer, events);
    lemma_halted_run(timer, events.take(i));
}

/// No run changes a halted timer.
proof fn lemma_halted_run(timer: TimerModel, events: Seq<Event>)
    requires
        timer.phase == Phase::Halted,
    ensures
        timer.run(events) == timer,
    decreases events.len(),
{
    if events.len() > 0 {
        lemma_halted_run(timer, events.drop_last());
    }
}

/// A session is announced, as begun or as finished, only in answer to a
/// reading of the shutdown signal that found it lowered. Once the signal is
/// raised, and so after `Quit`, no session is announced any more.
pub proof fn law_announcements_need_lowered_signal(timer: TimerModel, event: Event)
    requires
        timer.action(event) is Some,
        timer.action(event)->0 is StartSession || timer.action(event)->0 is AnnounceFinished,
    ensures
        event == (Event::Signal { shutdown: false }),
{
}

/// Once the user has quit, the loop ends within the tick that is under way.
/// However the timer stands, if the next two events that it waits for come
/// after the quit, it halts at the first or at the second, and it answers
/// neither with a wait or with an announcement of a session. The session
/// counter stays as it is.
pub proof fn law_shutdown_within_a_tick(timer: TimerModel, first: Event, second: Event)
    requires
        timer.inv(),
        timer.accepts(first),
        comes_after_quit(first),
        comes_after_quit(second),
        timer.next(first).phase != Phase::Halted ==> timer.next(first).accepts(second),
    ensures
        ({
            let after = timer.next(first);
            &&& after.phase == Phase::Halted || after.next(second).phase == Phase::Halted
            &&& timer.sessions == after.sessions == after.next(second).sessions
            &&& quiet(timer.action(first))
            &&& after.phase != Phase::Halted ==> quiet(after.action(second))
        }),
{
}

/// Whether an answer neither waits nor announces a session.
pub open spec fn quiet(answer: Option<ActionModel>) -> bool {
    match answer {
        Some(action) => {
            &&& action.wait_millis() == 0
            &&& !(action is StartSession)
            &&& !(action is AnnounceFinished)
        },
        None => true,
    }
}

/// Each action names the observation that is due after it: once an event
/// is answered, the timer waits for the kind of observation that the answer
/// asks for, and accepts an event exactly if it is of that kind.
pub proof fn law_action_names_the_due_event(timer: TimerModel, event: Event, following: Event)
    requires
        timer.accepts(event),
    ensures
        timer.action(event) is Some,
        timer.next(event).phase.due() == timer.action(event)->0.asks_for(),
        timer.next(event).accepts(following) <==> following.kind() == timer.action(
            event,
        )->0.asks_for(),
{
}

/// After the shutdown signal is raised, no session is announced. In a run
/// in which every reading of the signal from event number `from` on finds
/// it raised, no event from there on is answered by the announcement that a
/// session begins or has finished.
pub proof fn law_no_session_announced_after_shutdown(
    timer: TimerModel,
    events: Seq<Event>,
    from: int,
    i: int,
)
    requires
        0 <= from <= i < events.len(),
        forall|k: int|
            from <= k < events.len() && (#[trigger] events[k]) is Signal ==> events[k]->shutdown,
    ensures
        timer.answer(events, i) is Some ==> {
            &&& !(timer.answer(events, i)->0 is StartSession)
            &&& !(timer.answer(events, i)->0 is AnnounceFinished)
        },
{
    if timer.answer(events, i) is Some && (timer.answer(events, i)->0 is StartSession
        || timer.answer(events, i)->0 is AnnounceFinished) {
        law_announcements_need_lowered_signal(timer.run(events.take(i)), events[i]);
    }
}

/// A pause lasts. Once the timer is paused, no run changes its state or its
/// session counter, `Resume` included; it only waits, until the shutdown
/// signal is raised.
pub proof fn law_pause_lasts(timer: TimerModel, events: Seq<Event>)
    requires
        timer.inv(),
        timer.state == TimerState::Paused,
    ensures
        timer.run(events).state == TimerState::Paused,
        timer.run(events).sessions == timer.sessions,
        timer.run(events).phase == Phase::Ready || timer.run(events).phase == Phase::Halted,
    decreases events.len(),
{
    if events.len() > 0 {
        law_pause_lasts(timer, events.drop_last());
        law_run_keeps_invariant(timer, events.drop_last());
    }
}

} // verus!
