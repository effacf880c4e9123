//! How many web sockets there are, and whether one more is let in.

use crate::close::CloseReason;
use vstd::prelude::*;

verus! {

/// A web socket is let in while fewer than this many are counted as active.
pub const MAX_CONCURRENT_CONNECTIONS: u32 = 4;

/// Counts of web sockets; each wraps around at the end of its range.
#[derive(Clone, Copy, PartialEq, Eq, Structural, Debug)]
pub struct ConnectionCounters {
    /// Web sockets let in, less web sockets given back.
    pub active: u32,
    /// Web sockets let in.
    pub total: u32,
    /// Web sockets turned away.
    pub rejected: u32,
}

/// What becomes of a new web socket.
#[derive(Clone, Copy, PartialEq, Eq, Structural, Debug)]
pub enum Admission {
    /// It is let in; `active` counts it already.
    Accepted { active: u32 },
    /// It is turned away, for `active` others, and closed with the reason.
    Rejected { active: u32, reason: CloseReason },
}

/// The value that a count wraps around to.
pub open spec fn wrapped(count: int) -> u32 {
    (count % 0x1_0000_0000) as u32
}

impl ConnectionCounters {
    /// A new web socket would be let in.
    pub open spec fn has_room(self) -> bool {
        self.active < MAX_CONCURRENT_CONNECTIONS
    }

    /// What becomes of a new web socket.
    pub open spec fn admission(self) -> Admission {
        if self.has_room() {
            Admission::Accepted { active: (self.active + 1) as u32 }
        } else {
            Admission::Rejected { active: self.active, reason: CloseReason::AtCapacity }
        }
    }

    /// The counts after a new web socket has asked to be let in.
    pub open spec fn after_connect(self) -> ConnectionCounters {
        if self.has_room() {
            ConnectionCounters {
                active: (self.active + 1) as u32,
                total: wrapped(self.total + 1),
                ..self
            }
        } else {
            ConnectionCounters { rejected: wrapped(self.rejected + 1), ..self }
        }
    }

    /// The counts after a web socket has been given back.
    pub open spec fn after_disconnect(self) -> ConnectionCounters {
        ConnectionCounters { active: wrapped(self.active - 1), ..self }
    }

    /// The counts at the start.
    pub fn new() -> (counters: ConnectionCounters)
        ensures
            counters == (ConnectionCounters { active: 0, total: 0, rejected: 0 }),
    {
        ConnectionCounters { active: 0, total: 0, rejected: 0 }
    }

    /// Decides on a new web socket, and counts it.
    pub fn connect(&mut self) -> (admission: Admission)
        ensures
            *final(self) == old(self).after_connect(),
            admission == old(self).admission(),
            admission is Accepted <==> old(self).active < MAX_CONCURRENT_CONNECTIONS,
            old(self).has_room() ==> admission == (Admission::Accepted {
                active: final(self).active,
            }),
            !old(self).has_room() ==> admission == (Admission::Rejected {
                active: old(self).active,
                reason: CloseReason::AtCapacity,
            }),
    {
        let current: u32 = self.active;
        if current >= MAX_CONCURRENT_CONNECTIONS {
            self.rejected = self.rejected.wrapping_add(1);
            return Admission::Rejected { active: current, reason: CloseReason::AtCapacity };
        }
        self.active = current + 1;
        self.total = self.total.wrapping_add(1);
        Admission::Accepted { active: current + 1 }
    }

    /// Gives a web socket back. Every one is given back, also one that was
    /// turned away and so never counted as active.
    pub fn disconnect(&mut self)
        ensures
            *final(self) == old(self).after_disconnect(),
    {
        self.active = self.active.wrapping_sub(1);
    }
}

/// What happens to web sockets over time, in any order.
pub enum SocketEvent {
    /// A new one asks to be let in.
    Open,
    /// One that was let in is given back.
    Close,
    /// One is given back that was not let in: it was turned away, or it never
    /// asked since its handshake failed. One that is turned away is given back
    /// only after its close frame has been sent, so others can ask in between.
    Abandon,
}

/// The counts with nothing counted yet.
pub open spec fn zero() -> ConnectionCounters {
    ConnectionCounters { active: 0, total: 0, rejected: 0 }
}

/// The counts after all of the events, starting with nothing counted.
pub open spec fn run(events: Seq<SocketEvent>) -> ConnectionCounters
    decreases events.len(),
{
    if events.len() == 0 {
        zero()
    } else {
        let before = run(events.drop_last());
        match events.last() {
            SocketEvent::Open => before.after_connect(),
            SocketEvent::Close | SocketEvent::Abandon => before.after_disconnect(),
        }
    }
}

/// The number of events of which `f` holds, given the counts before the event.
pub open spec fn tally(
    events: Seq<SocketEvent>,
    f: spec_fn(ConnectionCounters, SocketEvent) -> bool,
) -> int
    decreases events.len(),
{
    if events.len() == 0 {
        0
    } else {
        tally(events.drop_last(), f) + if f(run(events.drop_last()), events.last()) {
            1int
        } else {
            0int
        }
    }
}

/// How many web sockets asked to be let in.
pub open spec fn opened(events: Seq<SocketEvent>) -> int {
    tally(events, |c: ConnectionCounters, e: SocketEvent| e is Open)
}

/// How many web sockets were let in.
pub open spec fn admitted(events: Seq<SocketEvent>) -> int {
    tally(events, |c: ConnectionCounters, e: SocketEvent| e is Open && c.active < MAX_CONCURRENT_CONNECTIONS)
}

/// How many web sockets were turned away.
pub open spec fn refused(events: Seq<SocketEvent>) -> int {
    tally(
        events,
        |c: ConnectionCounters, e: SocketEvent| e is Open && c.active >= MAX_CONCURRENT_CONNECTIONS,
    )
}

/// How many web sockets were let in and given back.
pub open spec fn closed(events: Seq<SocketEvent>) -> int {
    tally(events, |c: ConnectionCounters, e: SocketEvent| e is Close)
}

/// How many web sockets were given back without having been let in.
pub open spec fn abandoned(events: Seq<SocketEvent>) -> int {
    tally(events, |c: ConnectionCounters, e: SocketEvent| e is Abandon)
}

/// How many web sockets that were let in are still open.
pub open spec fn live(events: Seq<SocketEvent>) -> int {
    admitted(events) - closed(events)
}

proof fn lemma_wrapped(count: int)
    ensures
        wrapped(wrapped(count) + 1) == wrapped(count + 1),
        wrapped(wrapped(count) - 1) == wrapped(count - 1),
        0 <= count <= u32::MAX ==> wrapped(count) == count,
{
}

/// A web socket is let in exactly while fewer than `MAX_CONCURRENT_CONNECTIONS`
/// are active, however many came or were turned away before. One that is let in
/// adds one to the active and one to the total; one that is turned away adds one
/// to the rejected, and is told that the server is at capacity.
pub proof fn law_a_socket_is_let_in_exactly_while_few_are_active(c: ConnectionCounters)
    ensures
        c.active < MAX_CONCURRENT_CONNECTIONS <==> c.admission() is Accepted,
        c.admission() matches Admission::Accepted { active } ==> {
            &&& active == c.active + 1
            &&& c.after_connect().active == c.active + 1
            &&& c.after_connect().total == if c.total == u32::MAX {
                0
            } else {
                c.total + 1
            }
            &&& c.after_connect().rejected == c.rejected
        },
        c.admission() matches Admission::Rejected { active, reason } ==> {
            &&& active == c.active
            &&& reason == CloseReason::AtCapacity
            &&& c.after_connect().active == c.active
            &&& c.after_connect().total == c.total
            &&& c.after_connect().rejected == if c.rejected == u32::MAX {
                0
            } else {
                c.rejected + 1
            }
        },
{
}

/// A web socket that is given back takes one from the active, wrapping around,
/// and changes no other count.
pub proof fn law_giving_back_takes_one_from_the_active(c: ConnectionCounters)
    ensures
        c.after_disconnect().active == if c.active == 0 {
            u32::MAX as int
        } else {
            c.active - 1
        },
        c.after_disconnect().total == c.total,
        c.after_disconnect().rejected == c.rejected,
{
}

/// Every web socket that asks is either let in or turned away, and counted once
/// under what became of it; the counts wrap around.
pub proof fn law_every_socket_is_counted_once(events: Seq<SocketEvent>)
    ensures
        admitted(events) + refused(events) == opened(events),
        run(events).total == wrapped(admitted(events)),
        run(events).rejected == wrapped(refused(events)),
    decreases events.len(),
{
    if events.len() > 0 {
        law_every_socket_is_counted_once(events.drop_last());
        lemma_wrapped(admitted(events.drop_last()));
        lemma_wrapped(refused(events.drop_last()));
    }
}

/// The count of active web sockets is the number of open ones less the number
/// of those that were ever given back without having been let in; it wraps
/// around.
pub proof fn law_active_is_live_less_abandoned(events: Seq<SocketEvent>)
    ensures
        run(events).active == wrapped(live(events) - abandoned(events)),
    decreases events.len(),
{
    if events.len() > 0 {
        let before = events.drop_last();
        law_active_is_live_less_abandoned(before);
        lemma_wrapped(live(before) - abandoned(before));
        lemma_wrapped(run(before).active + 1);
    }
}

/// No more than `MAX_CONCURRENT_CONNECTIONS` web sockets are open at a time,
/// but for one more for each that was ever given back without having been let
/// in.
pub proof fn law_open_sockets_are_bounded(events: Seq<SocketEvent>)
    ensures
        live(events) <= MAX_CONCURRENT_CONNECTIONS + abandoned(events),
    decreases events.len(),
{
    if events.len() > 0 {
        let before = events.drop_last();
        law_open_sockets_are_bounded(before);
        law_active_is_live_less_abandoned(before);
        lemma_wrapped(live(before) - abandoned(before));
    }
}

/// As long as only web sockets that were let in have been given back, the count
/// of active ones is the number of open ones, and no more than
/// `MAX_CONCURRENT_CONNECTIONS` are open.
pub proof fn law_capacity_is_kept_while_only_admitted_sockets_return(events: Seq<SocketEvent>)
    requires
        abandoned(events) == 0,
        live(events) >= 0,
    ensures
        run(events).active == live(events),
        live(events) <= MAX_CONCURRENT_CONNECTIONS,
{
    law_active_is_live_less_abandoned(events);
    law_open_sockets_are_bounded(events);
    lemma_wrapped(live(events));
}

/// After any events, the next web socket is let in exactly if fewer than
/// `MAX_CONCURRENT_CONNECTIONS` are open, not counting one for each that was
/// ever given back without having been let in.
pub proof fn law_the_next_socket_is_let_in_while_few_are_open(events: Seq<SocketEvent>)
    requires
        live(events) >= abandoned(events),
    ensures
        run(events).admission() is Accepted <==> live(events) - abandoned(events)
            < MAX_CONCURRENT_CONNECTIONS,
        admitted(events.push(SocketEvent::Open)) == admitted(events) + if live(events) - abandoned(
            events,
        ) < MAX_CONCURRENT_CONNECTIONS {
            1int
        } else {
            0int
        },
{
    law_active_is_live_less_abandoned(events);
    law_open_sockets_are_bounded(events);
    lemma_wrapped(live(events) - abandoned(events));
    assert(events.push(SocketEvent::Open).drop_last() == events);
}

/// A web socket that is let in and given back leaves its trace in the total
/// alone.
pub proof fn law_giving_back_undoes_letting_in(c: ConnectionCounters)
    requires
        c.active < MAX_CONCURRENT_CONNECTIONS,
    ensures
        c.after_connect().after_disconnect() == (ConnectionCounters {
            total: wrapped(c.total + 1),
            ..c
        }),
{
}

} // verus!
