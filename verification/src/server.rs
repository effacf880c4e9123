//! Starting a web server: the seed of its network stack, and the wait for the
//! network to be ready.

use crate::clock;
use vstd::prelude::*;

verus! {

/// The port that is listened on.
pub const HTTP_PORT: u16 = 80;

/// Milliseconds between two looks at a network that is not ready.
pub const NETWORK_POLL_MILLIS: u64 = 500;

/// What a server task is to do.
#[derive(Clone, Copy, PartialEq, Eq, Structural, Debug)]
pub enum ServerStep {
    /// Ask whether the link is up.
    QueryLink,
    /// Pause before asking for the link again.
    PauseForLink,
    /// Ask whether an IPv4 address has been assigned.
    QueryAddress,
    /// Pause before asking for the address again.
    PauseForAddress,
    /// Serve requests, for good.
    Serve,
}

/// The outcome of a step.
#[derive(Clone, Copy, PartialEq, Eq, Structural, Debug)]
pub enum ServerEvent {
    /// Whether the link is up.
    Link { up: bool },
    /// Whether an IPv4 address has been assigned.
    Address { assigned: bool },
    /// The pause is over.
    Paused,
}

impl ServerStep {
    /// The event is an outcome of the step.
    pub open spec fn admissible(self, event: ServerEvent) -> bool {
        match self {
            ServerStep::QueryLink => event is Link,
            ServerStep::QueryAddress => event is Address,
            ServerStep::PauseForLink | ServerStep::PauseForAddress => event is Paused,
            ServerStep::Serve => false,
        }
    }

    /// The step that follows on an outcome of this one.
    pub open spec fn after(self, event: ServerEvent) -> ServerStep {
        match (self, event) {
            (ServerStep::QueryLink, ServerEvent::Link { up: true }) => ServerStep::QueryAddress,
            (ServerStep::QueryLink, _) => ServerStep::PauseForLink,
            (ServerStep::PauseForLink, _) => ServerStep::QueryLink,
            (ServerStep::QueryAddress, ServerEvent::Address { assigned: true }) => {
                ServerStep::Serve
            },
            (ServerStep::QueryAddress, _) => ServerStep::PauseForAddress,
            (ServerStep::PauseForAddress, _) => ServerStep::QueryAddress,
            (ServerStep::Serve, _) => ServerStep::Serve,
        }
    }

    /// The first step.
    pub fn first() -> (step: ServerStep)
        ensures
            step == ServerStep::QueryLink,
    {
        ServerStep::QueryLink
    }

    /// Whether [`next`](ServerStep::next) takes the event.
    pub fn admits(&self, event: &ServerEvent) -> (r: bool)
        ensures
            r == self.admissible(*event),
    {
        match *self {
            ServerStep::QueryLink => matches!(*event, ServerEvent::Link { .. }),
            ServerStep::QueryAddress => matches!(*event, ServerEvent::Address { .. }),
            ServerStep::PauseForLink | ServerStep::PauseForAddress => matches!(
                *event,
                ServerEvent::Paused
            ),
            ServerStep::Serve => false,
        }
    }

    /// The step that follows on an outcome of this one.
    pub fn next(self, event: ServerEvent) -> (step: ServerStep)
        requires
            self.admissible(event),
        ensures
            step == self.after(event),
    {
        match event {
            ServerEvent::Link { up } => if up {
                ServerStep::QueryAddress
            } else {
                ServerStep::PauseForLink
            },
            ServerEvent::Address { assigned } => if assigned {
                ServerStep::Serve
            } else {
                ServerStep::PauseForAddress
            },
            ServerEvent::Paused => if matches!(self, ServerStep::PauseForLink) {
                ServerStep::QueryLink
            } else {
                ServerStep::QueryAddress
            },
        }
    }
}

/// The ticks of a pause.
pub fn network_poll_pause() -> (ticks: u64)
    ensures
        ticks == clock::millis(NETWORK_POLL_MILLIS as int),
{
    clock::from_millis(NETWORK_POLL_MILLIS)
}

/// The number with these high and low halves.
pub open spec fn seed_of(high: u32, low: u32) -> int {
    high * 0x1_0000_0000 + low
}

/// The seed of the network stack from two random words, the first drawn as its
/// high half and the second as its low half.
pub fn network_seed(high: u32, low: u32) -> (seed: u64)
    ensures
        seed == seed_of(high, low),
{
    assert((high as u64) << 32 | low as u64 == high as u64 * 0x1_0000_0000 + low as u64)
        by (bit_vector);
    (high as u64) << 32 | low as u64
}

/// The step after all of the events.
pub open spec fn run(step: ServerStep, events: Seq<ServerEvent>) -> ServerStep
    decreases events.len(),
{
    if events.len() == 0 {
        step
    } else {
        run(step, events.drop_last()).after(events.last())
    }
}

/// Each of the events is admissible when its turn comes.
pub open spec fn legal(step: ServerStep, events: Seq<ServerEvent>) -> bool
    decreases events.len(),
{
    events.len() == 0 || {
        &&& legal(step, events.drop_last())
        &&& run(step, events.drop_last()).admissible(events.last())
    }
}

/// The link is asked for until it is up, then the address until it is assigned,
/// and then requests are served; there is a pause exactly after an answer of no,
/// and the same is asked again after it.
pub proof fn law_each_answer_decides_on_the_next_step(step: ServerStep, event: ServerEvent)
    requires
        step.admissible(event),
    ensures
        step.after(event) == ServerStep::QueryAddress <==> event == (ServerEvent::Link { up: true })
            || step == ServerStep::PauseForAddress,
        step.after(event) == ServerStep::PauseForLink <==> event == (ServerEvent::Link {
            up: false,
        }),
        step.after(event) == ServerStep::QueryLink <==> step == ServerStep::PauseForLink,
        step.after(event) == ServerStep::Serve <==> event == (ServerEvent::Address {
            assigned: true,
        }),
        step.after(event) == ServerStep::PauseForAddress <==> event == (ServerEvent::Address {
            assigned: false,
        }),
{
}

/// A step has every answer to its own question as an outcome and no other; a
/// server that serves has none.
pub proof fn law_a_server_takes_outcomes_of_its_step(step: ServerStep, event: ServerEvent)
    ensures
        event is Link ==> (step.admissible(event) <==> step == ServerStep::QueryLink),
        event is Address ==> (step.admissible(event) <==> step == ServerStep::QueryAddress),
        event is Paused ==> (step.admissible(event) <==> step == ServerStep::PauseForLink || step
            == ServerStep::PauseForAddress),
{
}

/// A server serves only after the link was seen up and then an address was
/// seen assigned.
pub proof fn law_a_server_serves_only_on_a_ready_network(events: Seq<ServerEvent>) -> (link: int)
    requires
        legal(ServerStep::QueryLink, events),
        run(ServerStep::QueryLink, events) == ServerStep::Serve,
    ensures
        0 <= link < events.len() - 1,
        events[link] == (ServerEvent::Link { up: true }),
        events.last() == (ServerEvent::Address { assigned: true }),
{
    let link = lemma_link_was_up(events.drop_last());
    assert(events.drop_last()[link] == events[link]);
    link
}

proof fn lemma_link_was_up(events: Seq<ServerEvent>) -> (link: int)
    requires
        legal(ServerStep::QueryLink, events),
        run(ServerStep::QueryLink, events) == ServerStep::QueryAddress || run(
            ServerStep::QueryLink,
            events,
        ) == ServerStep::PauseForAddress,
    ensures
        0 <= link < events.len(),
        events[link] == (ServerEvent::Link { up: true }),
    decreases events.len(),
{
    if events.last() == (ServerEvent::Link { up: true }) {
        events.len() - 1
    } else {
        lemma_link_was_up(events.drop_last())
    }
}

/// The first random word is the high half of the seed and the second its low
/// half.
pub proof fn law_a_seed_holds_both_words(high: u32, low: u32)
    ensures
        seed_of(high, low) / 0x1_0000_0000 == high,
        seed_of(high, low) % 0x1_0000_0000 == low,
{
}

/// Different pairs of random words give different seeds.
pub proof fn law_seeds_keep_all_randomness(
    high: u32,
    low: u32,
    other_high: u32,
    other_low: u32,
)
    requires
        seed_of(high, low) == seed_of(other_high, other_low),
    ensures
        high == other_high,
        low == other_low,
{
}

} // verus!
