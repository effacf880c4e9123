//! Keeping the station connected to its access point.
//!
//! A [`WifiStep`] is what is to be done now; its outcome, a [`WifiEvent`],
//! decides on the next. There is no last step.

use crate::clock;
use vstd::prelude::*;

verus! {

/// Milliseconds to pause after a lost connection and after a failed attempt.
pub const RECONNECT_PAUSE_MILLIS: u64 = 5000;

/// What is to be done.
#[derive(Clone, Copy, PartialEq, Eq, Structural, Debug)]
pub enum WifiStep {
    /// Ask whether the station is connected.
    QueryStation,
    /// Wait until the station is disconnected.
    AwaitDisconnect,
    /// Pause, the connection having been lost.
    PauseAfterDisconnect,
    /// Ask whether the radio is started.
    QueryRadio,
    /// Give the radio its configuration.
    Configure,
    /// Start the radio.
    Start,
    /// Try to connect.
    Connect,
    /// Pause, the attempt having failed.
    PauseAfterFailure,
}

/// The outcome of a step.
#[derive(Clone, Copy, PartialEq, Eq, Structural, Debug)]
pub enum WifiEvent {
    /// The station is connected, or it is in any other state.
    Station { connected: bool },
    /// The station was disconnected.
    Disconnected,
    /// The pause is over.
    Paused,
    /// Whether the radio is started; `None` if the radio could not tell.
    Radio { started: Option<bool> },
    /// The radio was configured.
    Configured,
    /// The radio was started.
    Started,
    /// The attempt to connect succeeded or failed.
    Attempted { success: bool },
}

impl WifiStep {
    /// The event is an outcome of the step.
    pub open spec fn admissible(self, event: WifiEvent) -> bool {
        match self {
            WifiStep::QueryStation => event is Station,
            WifiStep::AwaitDisconnect => event is Disconnected,
            WifiStep::PauseAfterDisconnect | WifiStep::PauseAfterFailure => event is Paused,
            WifiStep::QueryRadio => event is Radio,
            WifiStep::Configure => event is Configured,
            WifiStep::Start => event is Started,
            WifiStep::Connect => event is Attempted,
        }
    }

    /// The step that follows on an outcome of this one.
    pub open spec fn after(self, event: WifiEvent) -> WifiStep {
        match self {
            WifiStep::QueryStation => if event == (WifiEvent::Station { connected: true }) {
                WifiStep::AwaitDisconnect
            } else {
                WifiStep::QueryRadio
            },
            WifiStep::AwaitDisconnect => WifiStep::PauseAfterDisconnect,
            WifiStep::PauseAfterDisconnect => WifiStep::QueryRadio,
            WifiStep::QueryRadio => if event == (WifiEvent::Radio { started: Some(true) }) {
                WifiStep::Connect
            } else {
                WifiStep::Configure
            },
            WifiStep::Configure => WifiStep::Start,
            WifiStep::Start => WifiStep::Connect,
            WifiStep::Connect => if event == (WifiEvent::Attempted { success: true }) {
                WifiStep::QueryStation
            } else {
                WifiStep::PauseAfterFailure
            },
            WifiStep::PauseAfterFailure => WifiStep::QueryStation,
        }
    }

    /// How many steps there are at most before the next attempt to connect.
    pub open spec fn distance(self) -> nat {
        match self {
            WifiStep::Connect => 0,
            WifiStep::Start => 1,
            WifiStep::Configure => 2,
            WifiStep::QueryRadio => 3,
            WifiStep::PauseAfterDisconnect => 4,
            WifiStep::AwaitDisconnect => 5,
            WifiStep::QueryStation => 6,
            WifiStep::PauseAfterFailure => 7,
        }
    }

    /// The first step.
    pub fn first() -> (step: WifiStep)
        ensures
            step == WifiStep::QueryStation,
    {
        WifiStep::QueryStation
    }

    /// Whether [`next`](WifiStep::next) takes the event.
    pub fn admits(&self, event: &WifiEvent) -> (r: bool)
        ensures
            r == self.admissible(*event),
    {
        match *self {
            WifiStep::QueryStation => matches!(*event, WifiEvent::Station { .. }),
            WifiStep::AwaitDisconnect => matches!(*event, WifiEvent::Disconnected),
            WifiStep::PauseAfterDisconnect | WifiStep::PauseAfterFailure => matches!(
                *event,
                WifiEvent::Paused
            ),
            WifiStep::QueryRadio => matches!(*event, WifiEvent::Radio { .. }),
            WifiStep::Configure => matches!(*event, WifiEvent::Configured),
            WifiStep::Start => matches!(*event, WifiEvent::Started),
            WifiStep::Connect => matches!(*event, WifiEvent::Attempted { .. }),
        }
    }

    /// The step that follows on an outcome of this one.
    pub fn next(self, event: WifiEvent) -> (step: WifiStep)
        requires
            self.admissible(event),
        ensures
            step == self.after(event),
    {
        match event {
            WifiEvent::Station { connected } => if connected {
                WifiStep::AwaitDisconnect
            } else {
                WifiStep::QueryRadio
            },
            WifiEvent::Disconnected => WifiStep::PauseAfterDisconnect,
            WifiEvent::Paused => if matches!(self, WifiStep::PauseAfterDisconnect) {
                WifiStep::QueryRadio
            } else {
                WifiStep::QueryStation
            },
            WifiEvent::Radio { started } => match started {
                Some(true) => WifiStep::Connect,
                _ => WifiStep::Configure,
            },
            WifiEvent::Configured => WifiStep::Start,
            WifiEvent::Started => WifiStep::Connect,
            WifiEvent::Attempted { success } => if success {
                WifiStep::QueryStation
            } else {
                WifiStep::PauseAfterFailure
            },
        }
    }
}

/// The ticks of a pause.
pub fn reconnect_pause() -> (ticks: u64)
    ensures
        ticks == clock::millis(RECONNECT_PAUSE_MILLIS as int),
{
    clock::from_millis(RECONNECT_PAUSE_MILLIS)
}

/// What each outcome leads to. A connected station is watched until it is
/// disconnected, and any other is reconnected at once. A radio that has not said
/// that it is started is configured and started first.
pub proof fn law_each_outcome_decides_on_the_next_step(step: WifiStep, event: WifiEvent)
    requires
        step.admissible(event),
    ensures
        step.after(event) == WifiStep::AwaitDisconnect <==> event == (WifiEvent::Station {
            connected: true,
        }),
        step.after(event) == WifiStep::PauseAfterDisconnect <==> event == WifiEvent::Disconnected,
        step.after(event) == WifiStep::QueryRadio <==> event == (WifiEvent::Station {
            connected: false,
        }) || step == WifiStep::PauseAfterDisconnect,
        step.after(event) == WifiStep::Configure <==> (event matches WifiEvent::Radio {
            started,
        } && started != Some(true)),
        step.after(event) == WifiStep::Start <==> event == WifiEvent::Configured,
        step.after(event) == WifiStep::Connect <==> event == (WifiEvent::Radio {
            started: Some(true),
        }) || event == WifiEvent::Started,
        step.after(event) == WifiStep::QueryStation <==> event == (WifiEvent::Attempted {
            success: true,
        }) || step == WifiStep::PauseAfterFailure,
        step.after(event) == WifiStep::PauseAfterFailure <==> event == (WifiEvent::Attempted {
            success: false,
        }),
{
}

/// A step has every outcome of its own kind and no other.
pub proof fn law_the_station_takes_outcomes_of_its_step(step: WifiStep, event: WifiEvent)
    ensures
        event is Station ==> (step.admissible(event) <==> step == WifiStep::QueryStation),
        event is Disconnected ==> (step.admissible(event) <==> step == WifiStep::AwaitDisconnect),
        event is Paused ==> (step.admissible(event) <==> step == WifiStep::PauseAfterDisconnect
            || step == WifiStep::PauseAfterFailure),
        event is Radio ==> (step.admissible(event) <==> step == WifiStep::QueryRadio),
        event is Configured ==> (step.admissible(event) <==> step == WifiStep::Configure),
        event is Started ==> (step.admissible(event) <==> step == WifiStep::Start),
        event is Attempted ==> (step.admissible(event) <==> step == WifiStep::Connect),
{
}

/// Every step brings the next attempt to connect nearer, unless it is that
/// attempt.
pub proof fn law_every_step_leads_to_an_attempt(step: WifiStep, event: WifiEvent)
    requires
        step.admissible(event),
        step != WifiStep::Connect,
    ensures
        step.after(event).distance() < step.distance(),
{
}

/// An attempt to connect is made only with a radio that has said it is
/// started, or that has just been configured and started.
pub proof fn law_only_a_started_radio_connects(
    before: WifiStep,
    earlier: WifiEvent,
    step: WifiStep,
    event: WifiEvent,
)
    requires
        before.admissible(earlier),
        step == before.after(earlier),
        step.admissible(event),
        step.after(event) == WifiStep::Connect,
    ensures
        event == (WifiEvent::Radio { started: Some(true) }) || {
            &&& before == WifiStep::Configure
            &&& earlier == WifiEvent::Configured
            &&& event == WifiEvent::Started
        },
{
}

/// After a lost connection and after a failed attempt there is a pause; after
/// a successful attempt there is none.
pub proof fn law_setbacks_are_followed_by_a_pause(step: WifiStep, event: WifiEvent)
    requires
        step.admissible(event),
    ensures
        event == WifiEvent::Disconnected <==> step.after(event) == WifiStep::PauseAfterDisconnect,
        event == (WifiEvent::Attempted { success: false }) <==> step.after(event)
            == WifiStep::PauseAfterFailure,
        event == (WifiEvent::Attempted { success: true }) ==> step.after(event)
            == WifiStep::QueryStation,
{
}

} // verus!
