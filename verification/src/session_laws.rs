//! What holds of a session over any number of events.

use crate::buzzer::Signal;
use crate::clock;
use crate::close::{CloseReason, MessageError};
use crate::session::{
    self, Action, Event, Phase, Session, IDLE_LIMIT_SECS, PING_GAP_MILLIS, SESSION_MIN_HEAP,
    STATS_PERIOD_SECS,
};
use vstd::prelude::*;

verus! {

/// The session after all of the events.
pub open spec fn run(s: Session, events: Seq<Event>) -> Session
    decreases events.len(),
{
    if events.len() == 0 {
        s
    } else {
        run(s, events.drop_last()).after(events.last())
    }
}

/// Each of the events is admissible when its turn comes.
pub open spec fn legal(s: Session, events: Seq<Event>) -> bool
    decreases events.len(),
{
    events.len() == 0 || {
        &&& legal(s, events.drop_last())
        &&& run(s, events.drop_last()).admissible(events.last())
    }
}

/// How many pongs the events lead to.
pub open spec fn pongs(s: Session, events: Seq<Event>) -> nat
    decreases events.len(),
{
    if events.len() == 0 {
        0
    } else {
        let before = run(s, events.drop_last());
        pongs(s, events.drop_last()) + if before.effect(events.last()).action is SendPong {
            1nat
        } else {
            0nat
        }
    }
}

/// How many lines of statistics the events lead to.
pub open spec fn stats_lines(s: Session, events: Seq<Event>) -> nat
    decreases events.len(),
{
    if events.len() == 0 {
        0
    } else {
        let before = run(s, events.drop_last());
        stats_lines(s, events.drop_last()) + if before.effect(events.last()).stats is Some {
            1nat
        } else {
            0nat
        }
    }
}

/// When the last ping or pong among the events came; the session's own record
/// where there is none.
pub open spec fn last_heard(s: Session, events: Seq<Event>) -> u64
    decreases events.len(),
{
    if events.len() == 0 {
        s.last_activity
    } else {
        match events.last() {
            Event::Ping { activity, .. } => activity,
            Event::Pong { activity } => activity,
            _ => last_heard(s, events.drop_last()),
        }
    }
}

/// When the last ping that was answered among the events came; the session's own
/// record where there is none.
pub open spec fn last_answered(s: Session, events: Seq<Event>) -> u64
    decreases events.len(),
{
    if events.len() == 0 {
        s.last_ping
    } else {
        let before = run(s, events.drop_last());
        match events.last() {
            Event::Ping { now, .. } if before.effect(events.last()).action is SendPong => now,
            _ => last_answered(s, events.drop_last()),
        }
    }
}

/// When the last line of statistics among the events came; the session's own
/// record where there is none.
pub open spec fn last_told(s: Session, events: Seq<Event>) -> u64
    decreases events.len(),
{
    if events.len() == 0 {
        s.last_log
    } else {
        let before = run(s, events.drop_last());
        match events.last() {
            Event::Ping { now, .. } if before.effect(events.last()).stats is Some => now,
            _ => last_told(s, events.drop_last()),
        }
    }
}

/// The last thing that the session asked for is what it now waits for.
pub open spec fn awaits(s: Session, action: Action) -> bool {
    match action {
        Action::Poll => s.phase == Phase::Polling,
        Action::Receive => s.phase == Phase::Receiving,
        Action::SendPong(_) => s.phase == Phase::Answering,
        Action::Close(_) => s.phase == Phase::Closed,
        Action::Abort => s.phase == Phase::Aborted,
    }
}

/// No time that the session remembers lies after `t`.
pub open spec fn known_by(s: Session, t: u64) -> bool {
    s.last_log <= t && s.connect_time <= t && s.last_ping <= t && s.last_activity <= t
}

/// The event is an outcome of what the session waits for, and its clock
/// readings are taken in order, none before `t` and none after `later`.
pub open spec fn answers(s: Session, event: Event, t: u64, later: u64) -> bool {
    match event {
        Event::Poll { now, .. } => s.phase == Phase::Polling && t <= now <= later,
        Event::Ping { activity, now, .. } => {
            s.phase == Phase::Receiving && t <= activity <= now <= later
        },
        Event::Pong { activity } => s.phase == Phase::Receiving && t <= activity <= later,
        Event::PongSent | Event::PongFailed => s.phase == Phase::Answering && t <= later,
        _ => s.phase == Phase::Receiving && t <= later,
    }
}

/// A session that is opened keeps each of the four clock readings, has counted
/// no ping, and polls first.
pub proof fn law_a_session_opens_with_its_readings(log: u64, connect: u64, ping: u64, activity: u64)
    ensures
        ({
            let s = Session::opened(log, connect, ping, activity);
            &&& s.phase == Phase::Polling
            &&& s.msg_count == 0
            &&& s.last_log == log
            &&& s.connect_time == connect
            &&& s.last_ping == ping
            &&& s.last_activity == activity
        }),
{
}

/// A ping is answered with its payload, sounds the buzzer and is counted exactly
/// if at least `PING_GAP_MILLIS` have passed since the last counted one. A ping
/// that comes sooner is activity and nothing more.
pub proof fn law_a_ping_is_answered_exactly_after_the_gap(
    s: Session,
    activity: u64,
    now: u64,
    payload: &[u8],
)
    ensures
        ({
            let event = Event::Ping { activity, now, payload };
            let effect = s.effect(event);
            let after = s.after(event);
            let due = now - s.last_ping >= PING_GAP_MILLIS * 1_000;
            &&& due <==> effect.action == Action::SendPong(payload)
            &&& due <==> effect.signal == Some(Signal::On)
            &&& due <==> after.phase == Phase::Answering
            &&& due ==> after.last_ping == now
            &&& due && s.msg_count < u32::MAX ==> after.msg_count == s.msg_count + 1
            &&& !due ==> effect.action == Action::Poll
            &&& !due ==> effect.signal is None
            &&& !due ==> after.phase == Phase::Polling
            &&& !due ==> after.last_ping == s.last_ping
            &&& !due ==> after.msg_count == s.msg_count
            &&& after.last_activity == activity
            &&& after.connect_time == s.connect_time
            &&& after.free_heap == s.free_heap
        }),
{
}

/// Statistics are told exactly with a ping that is counted more than five seconds
/// (`STATS_PERIOD_SECS`) after they were last told. They give the pings with this
/// one, the whole seconds since the client connected, and the whole KiB of heap
/// that were free at the last look.
pub proof fn law_statistics_come_with_a_counted_ping(s: Session, event: Event)
    ensures
        s.effect(event).stats is Some <==> (event matches Event::Ping { now, .. } && now
            - s.last_ping >= PING_GAP_MILLIS * 1_000 && now - s.last_log > 5_000_000),
        s.effect(event).stats matches Some(stats) ==> (event matches Event::Ping { now, .. } && {
            &&& s.after(event).last_log == now
            &&& s.msg_count < u32::MAX ==> stats.pings == s.msg_count + 1
            &&& s.connect_time <= now ==> stats.uptime_secs * 1_000_000 <= now - s.connect_time < (
            stats.uptime_secs + 1) * 1_000_000
            &&& stats.heap_kib * 1024 <= s.free_heap < (stats.heap_kib + 1) * 1024
        }),
        s.effect(event).stats is None ==> s.after(event).last_log == s.last_log,
{
}

/// A look at the clock and the heap closes the session as idle exactly if the
/// last activity lies more than `IDLE_LIMIT_SECS` back, else as overloaded
/// exactly if fewer than `SESSION_MIN_HEAP` bytes are free; else the next message
/// is awaited, however long the session has been going on.
pub proof fn law_a_look_closes_only_for_silence_or_low_heap(
    s: Session,
    now: u64,
    free_heap: usize,
)
    ensures
        ({
            let event = Event::Poll { now, free_heap };
            let effect = s.effect(event);
            let after = s.after(event);
            let silent = now - s.last_activity > IDLE_LIMIT_SECS * 1_000_000;
            let low = free_heap < SESSION_MIN_HEAP;
            &&& !silent && !low <==> effect.action == Action::Receive
            &&& !silent && !low <==> effect.signal is None
            &&& !silent && !low <==> after.phase == Phase::Receiving
            &&& silent <==> effect.action == Action::Close(Some(CloseReason::IdleTimeout))
            &&& !silent && low <==> effect.action == Action::Close(
                Some(CloseReason::ServerOverload),
            )
            &&& silent || low <==> effect.signal == Some(Signal::Off)
            &&& silent || low <==> after.phase == Phase::Closed
            &&& !silent ==> after.free_heap == free_heap
            &&& after.msg_count == s.msg_count
            &&& after.last_log == s.last_log
            &&& after.connect_time == s.connect_time
            &&& after.last_ping == s.last_ping
            &&& after.last_activity == s.last_activity
        }),
{
}

/// The client's close is answered without a reason, a malformed message with its
/// error, a failed pong as such, and a broken socket is given up; each of these
/// exactly so, whatever has been counted. Where a session closes, the buzzer is
/// told to be silent and the session is over.
pub proof fn law_each_end_has_its_cause(s: Session, event: Event, error: MessageError)
    ensures
        s.effect(event).action == Action::Close(None) <==> event is Close,
        s.effect(event).action == Action::Close(Some(CloseReason::WebsocketError(error)))
            <==> event == Event::Malformed(error),
        s.effect(event).action == Action::Close(Some(CloseReason::PongSendFailed)) <==> event
            is PongFailed,
        s.effect(event).action == Action::Abort <==> event is ReadFailed,
        s.effect(event).action != Action::Close(Some(CloseReason::AtCapacity)),
        event is Close || event is Malformed || event is PongFailed ==> {
            &&& s.effect(event).signal == Some(Signal::Off)
            &&& s.after(event).phase == Phase::Closed
        },
        event is ReadFailed ==> {
            &&& s.effect(event).signal is None
            &&& s.after(event).phase == Phase::Aborted
        },
        event is Close || event is Malformed || event is PongFailed || event is ReadFailed ==> {
            &&& s.after(event).msg_count == s.msg_count
            &&& s.after(event).last_ping == s.last_ping
            &&& s.after(event).last_activity == s.last_activity
            &&& s.after(event).free_heap == s.free_heap
        },
{
}

/// A pong from the client, a text or binary message and a pong that was sent
/// only make the session poll again; the first is also activity.
pub proof fn law_pongs_and_data_only_go_on(s: Session, event: Event)
    requires
        event is Pong || event is Data || event is PongSent,
    ensures
        s.effect(event).action == Action::Poll,
        s.effect(event).signal is None,
        s.after(event).phase == Phase::Polling,
        s.after(event).msg_count == s.msg_count,
        s.after(event).last_ping == s.last_ping,
        s.after(event).free_heap == s.free_heap,
        s.after(event).last_activity == match event {
            Event::Pong { activity } => activity,
            _ => s.last_activity,
        },
{
}

/// A look is taken exactly while the session polls, the outcome of a pong while
/// it answers, and anything else while it receives. A clock reading must not lie
/// before one that it is measured against, and a ping that is due must not
/// overflow the count.
pub proof fn law_a_session_takes_outcomes_of_what_it_asked(s: Session, event: Event)
    ensures
        event matches Event::Poll { now, .. } ==> (s.admissible(event) <==> s.phase
            == Phase::Polling && s.last_activity <= now),
        event is PongSent || event is PongFailed ==> (s.admissible(event) <==> s.phase
            == Phase::Answering),
        event is Pong || event is Data || event is Close || event is Malformed || event
            is ReadFailed ==> (s.admissible(event) <==> s.phase == Phase::Receiving),
        event matches Event::Ping { now, .. } ==> (s.admissible(event) <==> {
            let due = now - s.last_ping >= PING_GAP_MILLIS * 1_000;
            let logs = now - s.last_log > STATS_PERIOD_SECS * 1_000_000;
            &&& s.phase == Phase::Receiving
            &&& s.last_ping <= now
            &&& due ==> s.msg_count < u32::MAX && s.last_log <= now
            &&& due && logs ==> s.connect_time <= now
        }),
{
}

/// After any events, the next ping is answered exactly if at least
/// `PING_GAP_MILLIS` have passed since the last one that was answered, and comes
/// with statistics exactly if moreover more than `STATS_PERIOD_SECS` have passed
/// since the last ones.
pub proof fn law_the_next_ping_is_measured_against_the_last_answered(
    s: Session,
    events: Seq<Event>,
    activity: u64,
    now: u64,
    payload: &[u8],
)
    ensures
        ({
            let effect = run(s, events).effect(Event::Ping { activity, now, payload });
            let due = now - last_answered(s, events) >= PING_GAP_MILLIS * 1_000;
            let logs = now - last_told(s, events) > STATS_PERIOD_SECS * 1_000_000;
            &&& due <==> effect.action == Action::SendPong(payload)
            &&& due <==> effect.signal == Some(Signal::On)
            &&& due && logs <==> effect.stats is Some
        }),
{
    lemma_records(s, events);
}

proof fn lemma_records(s: Session, events: Seq<Event>)
    ensures
        run(s, events).last_ping == last_answered(s, events),
        run(s, events).last_log == last_told(s, events),
    decreases events.len(),
{
    if events.len() > 0 {
        lemma_records(s, events.drop_last());
    }
}

/// A session counts exactly the pings that it answers, and it answers no more
/// than one in each gap of `PING_GAP_MILLIS`.
pub proof fn law_answered_pings_are_counted_and_spaced(s: Session, events: Seq<Event>)
    requires
        legal(s, events),
    ensures
        run(s, events).msg_count == s.msg_count + pongs(s, events),
        pongs(s, events) * clock::millis(PING_GAP_MILLIS as int) <= run(s, events).last_ping
            - s.last_ping,
    decreases events.len(),
{
    assert(clock::millis(PING_GAP_MILLIS as int) == 5_000);
    if events.len() > 0 {
        law_answered_pings_are_counted_and_spaced(s, events.drop_last());
    }
}

/// Lines of statistics are more than `STATS_PERIOD_SECS` apart.
pub proof fn law_stats_lines_are_spaced(s: Session, events: Seq<Event>)
    requires
        legal(s, events),
    ensures
        stats_lines(s, events) * (clock::secs(STATS_PERIOD_SECS as int) + 1) <= run(
            s,
            events,
        ).last_log - s.last_log,
    decreases events.len(),
{
    assert(clock::secs(STATS_PERIOD_SECS as int) == 5_000_000);
    if events.len() > 0 {
        law_stats_lines_are_spaced(s, events.drop_last());
    }
}

/// The time of connecting, from which the uptime is told, never changes.
pub proof fn law_connect_time_is_kept(s: Session, events: Seq<Event>)
    ensures
        run(s, events).connect_time == s.connect_time,
    decreases events.len(),
{
    if events.len() > 0 {
        law_connect_time_is_kept(s, events.drop_last());
    }
}

/// From its opening on, a session waits for a message only after a look at the
/// heap that found at least `SESSION_MIN_HEAP` bytes free.
pub proof fn law_messages_are_awaited_with_enough_heap(s: Session, events: Seq<Event>)
    requires
        s.phase == Phase::Polling,
        legal(s, events),
    ensures
        run(s, events).phase == Phase::Receiving ==> run(s, events).free_heap >= SESSION_MIN_HEAP,
    decreases events.len(),
{
    if events.len() > 0 {
        law_messages_are_awaited_with_enough_heap(s, events.drop_last());
    }
}

/// Only pings and pongs keep a session alive, counted or not; text and binary
/// messages do not.
pub proof fn law_only_pings_and_pongs_are_activity(s: Session, events: Seq<Event>)
    ensures
        run(s, events).last_activity == last_heard(s, events),
    decreases events.len(),
{
    if events.len() > 0 {
        law_only_pings_and_pongs_are_activity(s, events.drop_last());
    }
}

/// A look at the clock closes the session as idle if and only if the last ping
/// or pong came more than `IDLE_LIMIT_SECS` ago, however much heap is free.
pub proof fn law_silence_closes_a_session(
    s: Session,
    events: Seq<Event>,
    now: u64,
    free_heap: usize,
)
    requires
        legal(s, events),
        run(s, events).admissible(Event::Poll { now, free_heap }),
    ensures
        (now - last_heard(s, events) > clock::secs(IDLE_LIMIT_SECS as int)) <==> run(
            s,
            events,
        ).effect(Event::Poll { now, free_heap }) == session::closing(Some(CloseReason::IdleTimeout)),
{
    law_only_pings_and_pongs_are_activity(s, events);
}

/// After closing or giving up, a session takes no more events.
pub proof fn law_an_ended_session_is_final(s: Session, event: Event)
    requires
        s.phase == Phase::Closed || s.phase == Phase::Aborted,
    ensures
        !s.admissible(event),
{
}

/// A session always waits for the outcome of what it asked for, from its
/// opening on.
pub proof fn law_a_session_awaits_what_it_asked_for(s: Session, event: Event)
    ensures
        forall|log: u64, connect: u64, ping: u64, activity: u64|
            awaits(#[trigger] Session::opened(log, connect, ping, activity), Action::Poll),
        awaits(s.after(event), s.effect(event).action),
{
}

/// The buzzer is told to sound exactly with every answered ping, and to be
/// silent exactly with every close; a broken socket leaves it as it is.
pub proof fn law_the_buzzer_follows_the_session(s: Session, event: Event)
    ensures
        s.effect(event).signal == Some(Signal::On) <==> s.effect(event).action is SendPong,
        s.effect(event).signal == Some(Signal::Off) <==> s.effect(event).action is Close,
        event is ReadFailed ==> s.effect(event).signal is None,
{
}

/// A pong carries the payload of the ping that it answers.
pub proof fn law_a_pong_echoes_its_ping(s: Session, event: Event)
    ensures
        s.effect(event).action matches Action::SendPong(sent) ==> (event matches Event::Ping {
            payload,
            ..
        } && sent == payload),
{
}

/// As long as the clock does not run backwards and the count of pings can
/// still grow, every outcome of what the session waits for is admissible.
pub proof fn law_an_orderly_clock_suffices(s: Session, event: Event, t: u64, later: u64)
    requires
        known_by(s, t),
        answers(s, event, t, later),
        s.msg_count < u32::MAX,
    ensures
        s.admissible(event),
        known_by(s.after(event), later),
{
}

} // verus!
