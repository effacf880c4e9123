use buzzer::buzzer::Signal;
use buzzer::close::{CloseReason, FrameError, MessageError};
use buzzer::session::{Action, Effect, Event, Phase, Session, Stats, Summary};

const SECOND: u64 = 1_000_000;
const MILLISECOND: u64 = 1_000;
const HEAP: usize = 50_000;

fn step<'a>(session: &mut Session, event: Event<'a>) -> Effect<'a> {
    assert!(session.admits(&event));
    session.step(event)
}

fn receiving(now: u64) -> Session {
    let mut session = Session::open(now, now, now, now);
    let effect = step(&mut session, Event::Poll { now, free_heap: HEAP });
    assert_eq!(effect.action, Action::Receive);
    session
}

fn ping(session: &mut Session, now: u64) -> Effect<'static> {
    step(session, Event::Ping { activity: now, now, payload: b"beat" })
}

#[test]
fn open_keeps_each_reading() {
    let session = Session::open(1, 2, 3, 4);
    assert_eq!(session.phase, Phase::Polling);
    assert_eq!(Session::first_action(), Action::Poll);
    assert_eq!(session.msg_count, 0);
    assert_eq!(session.last_log, 1);
    assert_eq!(session.connect_time, 2);
    assert_eq!(session.last_ping, 3);
    assert_eq!(session.last_activity, 4);
}

#[test]
fn poll_asks_for_a_message() {
    let mut session = Session::open(0, 0, 0, 0);
    let effect = step(&mut session, Event::Poll { now: 7, free_heap: 8192 });
    assert_eq!(effect, Effect { stats: None, signal: None, action: Action::Receive });
    assert_eq!(session.phase, Phase::Receiving);
    assert_eq!(session.free_heap, 8192);
}

#[test]
fn silence_of_ten_seconds_is_borne() {
    let mut session = Session::open(0, 0, 0, 5);
    let effect = step(&mut session, Event::Poll { now: 5 + 10 * SECOND, free_heap: HEAP });
    assert_eq!(effect.action, Action::Receive);
}

#[test]
fn longer_silence_closes_as_idle() {
    let mut session = Session::open(0, 0, 0, 5);
    let effect = step(&mut session, Event::Poll { now: 6 + 10 * SECOND, free_heap: HEAP });
    assert_eq!(
        effect,
        Effect {
            stats: None,
            signal: Some(Signal::Off),
            action: Action::Close(Some(CloseReason::IdleTimeout)),
        }
    );
    assert_eq!(session.phase, Phase::Closed);
}

#[test]
fn low_heap_closes_as_overload() {
    let mut session = Session::open(0, 0, 0, 0);
    let effect = step(&mut session, Event::Poll { now: 0, free_heap: 8191 });
    assert_eq!(effect.signal, Some(Signal::Off));
    assert_eq!(effect.action, Action::Close(Some(CloseReason::ServerOverload)));
}

#[test]
fn silence_is_told_before_low_heap() {
    let mut session = Session::open(0, 0, 0, 0);
    let effect = step(&mut session, Event::Poll { now: 11 * SECOND, free_heap: 0 });
    assert_eq!(effect.action, Action::Close(Some(CloseReason::IdleTimeout)));
}

#[test]
fn ping_is_answered_with_its_payload() {
    let mut session = receiving(0);
    let payload = [3, 1, 4];
    let event = Event::Ping { activity: 5 * MILLISECOND, now: 5 * MILLISECOND, payload: &payload };
    assert!(session.admits(&event));
    let effect = session.step(event);
    assert_eq!(effect.stats, None);
    assert_eq!(effect.signal, Some(Signal::On));
    assert_eq!(effect.action, Action::SendPong(&[3, 1, 4]));
    assert_eq!(session.msg_count, 1);
    assert_eq!(session.last_ping, 5 * MILLISECOND);
    let effect = step(&mut session, Event::PongSent);
    assert_eq!(effect.action, Action::Poll);
    assert_eq!(session.phase, Phase::Polling);
}

#[test]
fn ping_that_comes_too_soon_is_activity_only() {
    let mut session = receiving(0);
    let event = Event::Ping { activity: 4_998, now: 4_999, payload: b"" };
    let effect = step(&mut session, event);
    assert_eq!(effect, Effect { stats: None, signal: None, action: Action::Poll });
    assert_eq!(session.msg_count, 0);
    assert_eq!(session.last_ping, 0);
    assert_eq!(session.last_activity, 4_998);
}

#[test]
fn pings_are_counted_no_faster_than_the_gap_allows() {
    let mut session = receiving(0);
    let mut pongs = 0;
    for now in (0..100 * MILLISECOND).step_by(1_000) {
        let effect = ping(&mut session, now);
        if let Action::SendPong(_) = effect.action {
            pongs += 1;
            step(&mut session, Event::PongSent);
        }
        step(&mut session, Event::Poll { now, free_heap: HEAP });
    }
    assert_eq!(pongs, 19);
    assert_eq!(session.msg_count, 19);
    assert!(pongs * 5 * MILLISECOND <= session.last_ping);
}

#[test]
fn statistics_come_after_five_seconds() {
    let mut session = receiving(0);
    let effect = ping(&mut session, 5 * SECOND);
    assert_eq!(effect.stats, None);
    step(&mut session, Event::PongSent);
    step(&mut session, Event::Poll { now: 5 * SECOND, free_heap: 10_239 });
    let effect = ping(&mut session, 7 * SECOND + 999_999);
    assert_eq!(effect.stats, Some(Stats { pings: 2, uptime_secs: 7, heap_kib: 9 }));
    assert_eq!(session.last_log, 7 * SECOND + 999_999);
    step(&mut session, Event::PongSent);
    step(&mut session, Event::Poll { now: 8 * SECOND, free_heap: 10_240 });
    let effect = ping(&mut session, 12 * SECOND);
    assert_eq!(effect.stats, None);
}

#[test]
fn pong_is_activity() {
    let mut session = receiving(0);
    let effect = step(&mut session, Event::Pong { activity: 9 * SECOND });
    assert_eq!(effect, Effect { stats: None, signal: None, action: Action::Poll });
    let effect = step(&mut session, Event::Poll { now: 19 * SECOND, free_heap: HEAP });
    assert_eq!(effect.action, Action::Receive);
}

#[test]
fn text_and_binary_messages_are_no_activity() {
    let mut session = receiving(0);
    let effect = step(&mut session, Event::Data);
    assert_eq!(effect, Effect { stats: None, signal: None, action: Action::Poll });
    assert_eq!(session.last_activity, 0);
    let effect = step(&mut session, Event::Poll { now: 10 * SECOND + 1, free_heap: HEAP });
    assert_eq!(effect.action, Action::Close(Some(CloseReason::IdleTimeout)));
}

#[test]
fn client_close_is_answered_without_a_reason() {
    let mut session = receiving(0);
    let effect = step(&mut session, Event::Close);
    assert_eq!(
        effect,
        Effect { stats: None, signal: Some(Signal::Off), action: Action::Close(None) }
    );
    assert_eq!(session.phase, Phase::Closed);
}

#[test]
fn malformed_message_closes_with_its_error() {
    let error = MessageError::ReservedOpcode(11);
    let mut session = receiving(0);
    let effect = step(&mut session, Event::Malformed(error));
    assert_eq!(effect.signal, Some(Signal::Off));
    assert_eq!(effect.action, Action::Close(Some(CloseReason::WebsocketError(error))));
}

#[test]
fn failed_pong_closes() {
    let mut session = receiving(0);
    ping(&mut session, SECOND);
    let effect = step(&mut session, Event::PongFailed);
    assert_eq!(effect.signal, Some(Signal::Off));
    assert_eq!(effect.action, Action::Close(Some(CloseReason::PongSendFailed)));
}

#[test]
fn broken_socket_is_abandoned_without_a_signal() {
    let mut session = receiving(0);
    let effect = step(&mut session, Event::ReadFailed);
    assert_eq!(effect, Effect { stats: None, signal: None, action: Action::Abort });
    assert_eq!(session.phase, Phase::Aborted);
}

#[test]
fn ended_session_admits_nothing() {
    let mut closed = receiving(0);
    step(&mut closed, Event::Close);
    let mut aborted = receiving(0);
    step(&mut aborted, Event::ReadFailed);
    for session in [closed, aborted] {
        for event in [
            Event::Poll { now: 1, free_heap: HEAP },
            Event::Ping { activity: 1, now: 1, payload: b"" },
            Event::Pong { activity: 1 },
            Event::Data,
            Event::Close,
            Event::Malformed(MessageError::TextIsNotUtf8),
            Event::ReadFailed,
            Event::PongSent,
            Event::PongFailed,
        ] {
            assert!(!session.admits(&event));
        }
    }
}

#[test]
fn clock_that_runs_backwards_is_not_admitted() {
    let session = Session::open(10, 10, 10, 10);
    assert!(!session.admits(&Event::Poll { now: 9, free_heap: HEAP }));
    assert!(session.admits(&Event::Poll { now: 10, free_heap: HEAP }));
    let mut session = receiving(10);
    assert!(!session.admits(&Event::Ping { activity: 9, now: 9, payload: b"" }));
    session.last_log = SECOND;
    assert!(session.admits(&Event::Ping { activity: 11, now: 11, payload: b"" }));
    assert!(!session.admits(&Event::Ping { activity: 6_000, now: 6_000, payload: b"" }));
    session.last_log = 0;
    session.connect_time = 9 * SECOND;
    assert!(session.admits(&Event::Ping { activity: SECOND, now: SECOND, payload: b"" }));
    assert!(!session.admits(&Event::Ping { activity: 0, now: 6 * SECOND, payload: b"" }));
}

#[test]
fn full_count_admits_only_pings_that_do_not_count() {
    let mut session = receiving(0);
    session.msg_count = u32::MAX;
    assert!(session.admits(&Event::Ping { activity: 1, now: 4_999, payload: b"" }));
    assert!(!session.admits(&Event::Ping { activity: 1, now: 5_000, payload: b"" }));
}

#[test]
fn summary_tells_pings_and_whole_seconds() {
    let mut session = receiving(3 * SECOND);
    ping(&mut session, 4 * SECOND);
    assert_eq!(
        session.summary(64 * SECOND + 999_999),
        Summary { pings: 1, uptime_secs: 61 }
    );
}

#[test]
fn connect_time_is_kept() {
    let mut session = receiving(42);
    ping(&mut session, 6 * SECOND);
    step(&mut session, Event::PongSent);
    assert_eq!(session.connect_time, 42);
}

#[test]
fn close_frames() {
    let frame = |reason: CloseReason| (reason.code(), reason.text());
    assert_eq!(frame(CloseReason::AtCapacity), (1008, "server at capacity"));
    assert_eq!(frame(CloseReason::IdleTimeout), (1000, "idle timeout"));
    assert_eq!(frame(CloseReason::ServerOverload), (1011, "server overload"));
    assert_eq!(frame(CloseReason::PongSendFailed), (1011, "pong send failed"));
    for (error, code) in [
        (MessageError::ReadFrameError(FrameError::UnexpectedEof), 1002),
        (MessageError::ReadFrameError(FrameError::MessageIsTooLong(1 << 40)), 1002),
        (MessageError::ReadFrameError(FrameError::OutOfSpace), 1002),
        (MessageError::MessageStartsWithContinuation, 1002),
        (MessageError::UnexpectedMessageStart, 1002),
        (MessageError::ReservedOpcode(3), 1003),
        (MessageError::TextIsNotUtf8, 1007),
    ] {
        assert_eq!(frame(CloseReason::WebsocketError(error)), (code, "websocket error"));
    }
}
