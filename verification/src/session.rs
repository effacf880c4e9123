//! One accepted web socket: what is done with each message, and when and why
//! the connection is given up.
//!
//! A session is a state machine. It names what is to be done next as an
//! [`Effect`]; the outcome comes back as an [`Event`]. All clock readings and
//! the amount of free heap arrive with the events.

use crate::buzzer::Signal;
use crate::clock;
use crate::close::{CloseReason, MessageError};
use vstd::prelude::*;

verus! {

/// Free heap, in bytes, below which a session is closed.
pub const SESSION_MIN_HEAP: usize = 8192;

/// Seconds without a ping or a pong after which a session is closed.
pub const IDLE_LIMIT_SECS: u64 = 10;

/// Milliseconds that must lie between two pings for the second to count.
pub const PING_GAP_MILLIS: u64 = 5;

/// Seconds between two lines of statistics.
pub const STATS_PERIOD_SECS: u64 = 5;

/// What a session waits for.
#[derive(Clone, Copy, PartialEq, Eq, Structural, Debug)]
pub enum Phase {
    /// A look at the clock and the heap.
    Polling,
    /// A message from the client.
    Receiving,
    /// The outcome of sending a pong.
    Answering,
    /// Nothing more: the socket is being closed.
    Closed,
    /// Nothing more: the socket broke and is abandoned as it is.
    Aborted,
}

/// The outcome of what a session asked for.
#[derive(Clone, Copy, PartialEq, Eq, Debug)]
pub enum Event<'a> {
    /// The clock reads `now` and `free_heap` bytes of heap are free.
    Poll { now: u64, free_heap: usize },
    /// A ping with this payload; `activity` and `now` are two readings of the
    /// clock, taken in this order when it came.
    Ping { activity: u64, now: u64, payload: &'a [u8] },
    /// A pong came when the clock read `activity`.
    Pong { activity: u64 },
    /// A text or a binary message came.
    Data,
    /// The client asks to close.
    Close,
    /// What came is no well-formed message.
    Malformed(MessageError),
    /// Reading from the socket failed.
    ReadFailed,
    /// The pong was sent.
    PongSent,
    /// Sending the pong failed.
    PongFailed,
}

/// What a session asks for last.
#[derive(Clone, Copy, PartialEq, Eq, Debug)]
pub enum Action<'a> {
    /// Read the clock and the free heap.
    Poll,
    /// Wait for the next message.
    Receive,
    /// Send a pong with this payload.
    SendPong(&'a [u8]),
    /// Close the socket, with a close frame that gives the reason if there is one.
    Close(Option<CloseReason>),
    /// Return the error that reading from the socket gave.
    Abort,
}

/// A line of statistics.
#[derive(Clone, Copy, PartialEq, Eq, Structural, Debug)]
pub struct Stats {
    /// Pings counted so far.
    pub pings: u32,
    /// Whole seconds since the client connected.
    pub uptime_secs: u64,
    /// Free heap in KiB, rounded down.
    pub heap_kib: usize,
}

/// What is told of a session when it closes.
#[derive(Clone, Copy, PartialEq, Eq, Structural, Debug)]
pub struct Summary {
    /// Pings counted.
    pub pings: u32,
    /// Whole seconds since the client connected.
    pub uptime_secs: u64,
}

/// What is to be done, in this order: log the statistics, tell the buzzer, act.
#[derive(Clone, Copy, PartialEq, Eq, Debug)]
pub struct Effect<'a> {
    pub stats: Option<Stats>,
    pub signal: Option<Signal>,
    pub action: Action<'a>,
}

/// The state of an accepted web socket.
#[derive(Clone, Copy, PartialEq, Eq, Structural, Debug)]
pub struct Session {
    pub phase: Phase,
    /// Pings counted so far.
    pub msg_count: u32,
    /// When statistics were last logged, or the session was opened.
    pub last_log: u64,
    /// When the client connected.
    pub connect_time: u64,
    /// When the last counted ping came, or the session was opened.
    pub last_ping: u64,
    /// When the last ping or pong came, or the session was opened.
    pub last_activity: u64,
    /// Free heap at the last look, in bytes.
    pub free_heap: usize,
}

/// An effect that only acts.
pub open spec fn only<'a>(action: Action<'a>) -> Effect<'a> {
    Effect { stats: None, signal: None, action }
}

/// The effect of closing: the buzzer is told to be silent.
pub open spec fn closing<'a>(reason: Option<CloseReason>) -> Effect<'a> {
    Effect { stats: None, signal: Some(Signal::Off), action: Action::Close(reason) }
}

impl Session {
    /// The state of a session that has just been opened.
    pub open spec fn opened(
        last_log: u64,
        connect_time: u64,
        last_ping: u64,
        last_activity: u64,
    ) -> Session {
        Session {
            phase: Phase::Polling,
            msg_count: 0,
            last_log,
            connect_time,
            last_ping,
            last_activity,
            free_heap: 0,
        }
    }

    /// At `now` the client has been silent for too long.
    pub open spec fn is_idle(self, now: u64) -> bool {
        now - self.last_activity > clock::secs(IDLE_LIMIT_SECS as int)
    }

    /// A ping at `now` counts; one that comes sooner after the last counted
    /// ping is ignored.
    pub open spec fn counts(self, now: u64) -> bool {
        now - self.last_ping >= clock::millis(PING_GAP_MILLIS as int)
    }

    /// Statistics are to be logged with a ping that counts at `now`.
    pub open spec fn stats_due(self, now: u64) -> bool {
        now - self.last_log > clock::secs(STATS_PERIOD_SECS as int)
    }

    /// The statistics that go with a ping that counts at `now`.
    pub open spec fn stats_at(self, now: u64) -> Stats {
        Stats {
            pings: (self.msg_count + 1) as u32,
            uptime_secs: ((now - self.connect_time) / clock::TICKS_PER_SECOND as int) as u64,
            heap_kib: self.free_heap / 1024,
        }
    }

    /// The event is one that the session waits for, no clock reading that is
    /// measured against lies after the reading that comes with the event, and
    /// a ping that counts can still be counted.
    pub open spec fn admissible(self, event: Event) -> bool {
        match event {
            Event::Poll { now, .. } => self.phase == Phase::Polling && self.last_activity <= now,
            Event::Ping { now, .. } => {
                &&& self.phase == Phase::Receiving
                &&& self.last_ping <= now
                &&& self.counts(now) ==> {
                    &&& self.msg_count < u32::MAX
                    &&& self.last_log <= now
                    &&& self.stats_due(now) ==> self.connect_time <= now
                }
            },
            Event::PongSent | Event::PongFailed => self.phase == Phase::Answering,
            _ => self.phase == Phase::Receiving,
        }
    }

    /// The session after an event.
    pub open spec fn after(self, event: Event) -> Session {
        match event {
            Event::Poll { now, free_heap } => if self.is_idle(now) {
                Session { phase: Phase::Closed, ..self }
            } else if free_heap < SESSION_MIN_HEAP {
                Session { phase: Phase::Closed, free_heap, ..self }
            } else {
                Session { phase: Phase::Receiving, free_heap, ..self }
            },
            Event::Ping { activity, now, .. } => if self.counts(now) {
                Session {
                    phase: Phase::Answering,
                    msg_count: (self.msg_count + 1) as u32,
                    last_activity: activity,
                    last_ping: now,
                    last_log: if self.stats_due(now) { now } else { self.last_log },
                    ..self
                }
            } else {
                Session { phase: Phase::Polling, last_activity: activity, ..self }
            },
            Event::Pong { activity } => Session {
                phase: Phase::Polling,
                last_activity: activity,
                ..self
            },
            Event::Data | Event::PongSent => Session { phase: Phase::Polling, ..self },
            Event::Close | Event::Malformed(_) | Event::PongFailed => Session {
                phase: Phase::Closed,
                ..self
            },
            Event::ReadFailed => Session { phase: Phase::Aborted, ..self },
        }
    }

    /// What is to be done after an event.
    pub open spec fn effect<'a>(self, event: Event<'a>) -> Effect<'a> {
        match event {
            Event::Poll { now, free_heap } => if self.is_idle(now) {
                closing(Some(CloseReason::IdleTimeout))
            } else if free_heap < SESSION_MIN_HEAP {
                closing(Some(CloseReason::ServerOverload))
            } else {
                only(Action::Receive)
            },
            Event::Ping { now, payload, .. } => if self.counts(now) {
                Effect {
                    stats: if self.stats_due(now) { Some(self.stats_at(now)) } else { None },
                    signal: Some(Signal::On),
                    action: Action::SendPong(payload),
                }
            } else {
                only(Action::Poll)
            },
            Event::Pong { .. } | Event::Data | Event::PongSent => only(Action::Poll),
            Event::Close => closing(None),
            Event::Malformed(error) => closing(Some(CloseReason::WebsocketError(error))),
            Event::PongFailed => closing(Some(CloseReason::PongSendFailed)),
            Event::ReadFailed => only(Action::Abort),
        }
    }

    /// Opens a session; the arguments are readings of the clock, in the order
    /// in which they are taken.
    pub fn open(last_log: u64, connect_time: u64, last_ping: u64, last_activity: u64) -> (session:
        Session)
        ensures
            session == Session::opened(last_log, connect_time, last_ping, last_activity),
    {
        Session {
            phase: Phase::Polling,
            msg_count: 0,
            last_log,
            connect_time,
            last_ping,
            last_activity,
            free_heap: 0,
        }
    }

    /// What a session that has just been opened asks for.
    pub fn first_action<'a>() -> (action: Action<'a>)
        ensures
            action == Action::<'a>::Poll,
    {
        Action::Poll
    }

    /// Whether [`step`](Session::step) takes the event.
    pub fn admits(&self, event: &Event) -> (r: bool)
        ensures
            r == self.admissible(*event),
    {
        match *event {
            Event::Poll { now, .. } => matches!(self.phase, Phase::Polling) && self.last_activity
                <= now,
            Event::Ping { now, .. } => {
                if !matches!(self.phase, Phase::Receiving) || self.last_ping > now {
                    false
                } else if clock::duration_since(now, self.last_ping) < clock::from_millis(
                    PING_GAP_MILLIS,
                ) {
                    true
                } else if self.msg_count == u32::MAX || self.last_log > now {
                    false
                } else {
                    clock::duration_since(now, self.last_log) <= clock::from_secs(STATS_PERIOD_SECS)
                        || self.connect_time <= now
                }
            },
            Event::PongSent | Event::PongFailed => matches!(self.phase, Phase::Answering),
            _ => matches!(self.phase, Phase::Receiving),
        }
    }

    /// Takes an event and says what is to be done next.
    pub fn step<'a>(&mut self, event: Event<'a>) -> (effect: Effect<'a>)
        requires
            old(self).admissible(event),
        ensures
            *final(self) == old(self).after(event),
            effect == old(self).effect(event),
    {
        match event {
            Event::Poll { now, free_heap } => self.poll(now, free_heap),
            Event::Ping { activity, now, payload } => self.ping(activity, now, payload),
            Event::Pong { activity } => {
                self.last_activity = activity;
                self.phase = Phase::Polling;
                Effect { stats: None, signal: None, action: Action::Poll }
            },
            Event::Data | Event::PongSent => {
                self.phase = Phase::Polling;
                Effect { stats: None, signal: None, action: Action::Poll }
            },
            Event::Close => self.close(None),
            Event::Malformed(error) => self.close(Some(CloseReason::WebsocketError(error))),
            Event::PongFailed => self.close(Some(CloseReason::PongSendFailed)),
            Event::ReadFailed => {
                self.phase = Phase::Aborted;
                Effect { stats: None, signal: None, action: Action::Abort }
            },
        }
    }

    fn poll<'a>(&mut self, now: u64, free_heap: usize) -> (effect: Effect<'a>)
        requires
            old(self).last_activity <= now,
        ensures
            *final(self) == old(self).after(Event::Poll { now, free_heap }),
            effect == old(self).effect(Event::Poll { now, free_heap }),
    {
        if clock::duration_since(now, self.last_activity) > clock::from_secs(IDLE_LIMIT_SECS) {
            return self.close(Some(CloseReason::IdleTimeout));
        }
        self.free_heap = free_heap;
        if free_heap < SESSION_MIN_HEAP {
            return self.close(Some(CloseReason::ServerOverload));
        }
        self.phase = Phase::Receiving;
        Effect { stats: None, signal: None, action: Action::Receive }
    }

    fn ping<'a>(&mut self, activity: u64, now: u64, payload: &'a [u8]) -> (effect: Effect<'a>)
        requires
            old(self).admissible(Event::Ping { activity, now, payload }),
        ensures
            *final(self) == old(self).after(Event::Ping { activity, now, payload }),
            effect == old(self).effect(Event::Ping { activity, now, payload }),
    {
        self.last_activity = activity;
        if clock::duration_since(now, self.last_ping) < clock::from_millis(PING_GAP_MILLIS) {
            self.phase = Phase::Polling;
            return Effect { stats: None, signal: None, action: Action::Poll };
        }
        self.last_ping = now;
        self.msg_count = self.msg_count + 1;
        let mut stats: Option<Stats> = None;
        if clock::duration_since(now, self.last_log) > clock::from_secs(STATS_PERIOD_SECS) {
            stats = Some(
                Stats {
                    pings: self.msg_count,
                    uptime_secs: clock::as_secs(clock::duration_since(now, self.connect_time)),
                    heap_kib: self.free_heap / 1024,
                },
            );
            self.last_log = now;
        }
        self.phase = Phase::Answering;
        Effect { stats, signal: Some(Signal::On), action: Action::SendPong(payload) }
    }

    fn close<'a>(&mut self, reason: Option<CloseReason>) -> (effect: Effect<'a>)
        ensures
            *final(self) == (Session { phase: Phase::Closed, ..*old(self) }),
            effect == closing::<'a>(reason),
    {
        self.phase = Phase::Closed;
        Effect { stats: None, signal: Some(Signal::Off), action: Action::Close(reason) }
    }

    /// What is told of the session when it closes at `now`.
    pub fn summary(&self, now: u64) -> (summary: Summary)
        requires
            self.connect_time <= now,
        ensures
            summary.pings == self.msg_count,
            summary.uptime_secs == (now - self.connect_time) / clock::TICKS_PER_SECOND as int,
    {
        Summary {
            pings: self.msg_count,
            uptime_secs: clock::as_secs(clock::duration_since(now, self.connect_time)),
        }
    }
}

} // verus!
