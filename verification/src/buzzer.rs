//! The buzzer: what it is told, and how its pin is driven.
//!
//! The buzzer sounds in short pulses for as long as pings keep coming, and
//! falls silent by itself some time after the last one. Driving it is a state
//! machine: it names what is to be done next as a [`Drive`], and the outcome
//! comes back as a [`BuzzerEvent`].

use crate::clock;
use vstd::prelude::*;

verus! {

/// Milliseconds after the last ping for which the buzzer still sounds.
pub const BUZZ_HOLD_MILLIS: u64 = 500;

/// Milliseconds for which one pulse sounds, and for which it is then silent.
pub const PULSE_MILLIS: u64 = 25;

/// What a session tells the buzzer.
#[derive(Clone, Copy, PartialEq, Eq, Structural, Debug)]
pub enum Signal {
    /// A ping was counted: sound.
    On,
    /// The session is over: be silent.
    Off,
}

/// What the buzzer was last told.
#[derive(Clone, Copy, PartialEq, Eq, Structural, Debug)]
pub enum BuzzerState {
    /// To be silent.
    Off,
    /// To sound, when the clock read this.
    On(u64),
}

/// A level of an output pin.
#[derive(Clone, Copy, PartialEq, Eq, Structural, Debug)]
pub enum PinLevel {
    Low,
    High,
}

/// How far a pulse has come.
#[derive(Clone, Copy, PartialEq, Eq, Structural, Debug)]
pub enum Beat {
    /// No pulse is under way.
    Deciding,
    /// The pulse sounds.
    Sounding,
    /// The pulse has sounded; the pause after it runs.
    Resting,
}

/// The outcome of what was asked for.
#[derive(Clone, Copy, PartialEq, Eq, Structural, Debug)]
pub enum BuzzerEvent {
    /// The buzzer was last told `state`, and the clock reads `now`.
    Told { state: BuzzerState, now: u64 },
    /// The time to sleep is over.
    Slept,
}

/// What to do last.
#[derive(Clone, Copy, PartialEq, Eq, Structural, Debug)]
pub enum Next {
    /// Look at what the buzzer was last told, and at the clock.
    Look,
    /// Wait until the buzzer is told something, and look then.
    AwaitChange,
    /// Sleep for this many ticks.
    Sleep(u64),
}

/// What is to be done, in this order.
#[derive(Clone, Copy, PartialEq, Eq, Structural, Debug)]
pub struct Drive {
    /// Tell the buzzer to be silent.
    pub publish_off: bool,
    /// Set the pin to this level; leave it alone if there is none.
    pub pin: Option<PinLevel>,
    pub next: Next,
}

/// The state of the buzzer's driver.
#[derive(Clone, Copy, PartialEq, Eq, Structural, Debug)]
pub struct Buzzer {
    /// Pulses have been sounded since the buzzer was last silenced.
    pub is_buzzing: bool,
    pub beat: Beat,
}

impl Signal {
    /// What the buzzer is told by a signal given when the clock reads `now`.
    pub fn at(self, now: u64) -> (state: BuzzerState)
        ensures
            self == Signal::On ==> state == BuzzerState::On(now),
            self == Signal::Off ==> state == BuzzerState::Off,
    {
        match self {
            Signal::On => BuzzerState::On(now),
            Signal::Off => BuzzerState::Off,
        }
    }
}

/// Told at `since` to sound, the buzzer has fallen silent by `now`.
pub open spec fn expired(since: u64, now: u64) -> bool {
    now - since > clock::millis(BUZZ_HOLD_MILLIS as int)
}

impl Buzzer {
    /// The event is one that was asked for, and the buzzer was not told to
    /// sound after the clock was read.
    pub open spec fn admissible(self, event: BuzzerEvent) -> bool {
        match event {
            BuzzerEvent::Told { state, now } => {
                &&& self.beat == Beat::Deciding
                &&& state matches BuzzerState::On(since) ==> since <= now
            },
            BuzzerEvent::Slept => self.beat == Beat::Sounding || self.beat == Beat::Resting,
        }
    }

    /// The driver after an event.
    pub open spec fn after(self, event: BuzzerEvent) -> Buzzer {
        match event {
            BuzzerEvent::Told { state: BuzzerState::On(since), now } if !expired(since, now) => {
                Buzzer { is_buzzing: true, beat: Beat::Sounding }
            },
            BuzzerEvent::Told { .. } => Buzzer { is_buzzing: false, beat: Beat::Deciding },
            BuzzerEvent::Slept => Buzzer {
                beat: if self.beat == Beat::Sounding {
                    Beat::Resting
                } else {
                    Beat::Deciding
                },
                ..self
            },
        }
    }

    /// What is to be done after an event.
    pub open spec fn drive(self, event: BuzzerEvent) -> Drive {
        let pulse = clock::millis(PULSE_MILLIS as int) as u64;
        match event {
            BuzzerEvent::Told { state: BuzzerState::Off, .. } => Drive {
                publish_off: false,
                pin: if self.is_buzzing { Some(PinLevel::Low) } else { None },
                next: Next::AwaitChange,
            },
            BuzzerEvent::Told { state: BuzzerState::On(since), now } => if expired(since, now) {
                Drive { publish_off: true, pin: Some(PinLevel::Low), next: Next::Look }
            } else {
                Drive { publish_off: false, pin: Some(PinLevel::High), next: Next::Sleep(pulse) }
            },
            BuzzerEvent::Slept => if self.beat == Beat::Sounding {
                Drive { publish_off: false, pin: Some(PinLevel::Low), next: Next::Sleep(pulse) }
            } else {
                Drive { publish_off: false, pin: None, next: Next::Look }
            },
        }
    }

    /// A driver whose buzzer has not sounded yet.
    pub fn new() -> (buzzer: Buzzer)
        ensures
            buzzer == (Buzzer { is_buzzing: false, beat: Beat::Deciding }),
    {
        Buzzer { is_buzzing: false, beat: Beat::Deciding }
    }

    /// What a new driver asks for.
    pub fn first() -> (next: Next)
        ensures
            next == Next::Look,
    {
        Next::Look
    }

    /// Whether [`step`](Buzzer::step) takes the event.
    pub fn admits(&self, event: &BuzzerEvent) -> (r: bool)
        ensures
            r == self.admissible(*event),
    {
        match *event {
            BuzzerEvent::Told { state, now } => matches!(self.beat, Beat::Deciding) && match state {
                BuzzerState::Off => true,
                BuzzerState::On(since) => since <= now,
            },
            BuzzerEvent::Slept => !matches!(self.beat, Beat::Deciding),
        }
    }

    /// Takes an event and says what is to be done next.
    pub fn step(&mut self, event: BuzzerEvent) -> (drive: Drive)
        requires
            old(self).admissible(event),
        ensures
            *final(self) == old(self).after(event),
            drive == old(self).drive(event),
    {
        match event {
            BuzzerEvent::Told { state: BuzzerState::Off, .. } => {
                let pin = if self.is_buzzing {
                    self.is_buzzing = false;
                    Some(PinLevel::Low)
                } else {
                    None
                };
                Drive { publish_off: false, pin, next: Next::AwaitChange }
            },
            BuzzerEvent::Told { state: BuzzerState::On(since), now } => {
                if clock::duration_since(now, since) > clock::from_millis(BUZZ_HOLD_MILLIS) {
                    self.is_buzzing = false;
                    Drive { publish_off: true, pin: Some(PinLevel::Low), next: Next::Look }
                } else {
                    self.is_buzzing = true;
                    self.beat = Beat::Sounding;
                    Drive {
                        publish_off: false,
                        pin: Some(PinLevel::High),
                        next: Next::Sleep(clock::from_millis(PULSE_MILLIS)),
                    }
                }
            },
            BuzzerEvent::Slept => {
                if matches!(self.beat, Beat::Sounding) {
                    self.beat = Beat::Resting;
                    Drive {
                        publish_off: false,
                        pin: Some(PinLevel::Low),
                        next: Next::Sleep(clock::from_millis(PULSE_MILLIS)),
                    }
                } else {
                    self.beat = Beat::Deciding;
                    Drive { publish_off: false, pin: None, next: Next::Look }
                }
            },
        }
    }
}

/// The driver after all of the events.
pub open spec fn run(b: Buzzer, events: Seq<BuzzerEvent>) -> Buzzer
    decreases events.len(),
{
    if events.len() == 0 {
        b
    } else {
        run(b, events.drop_last()).after(events.last())
    }
}

/// Each of the events is admissible when its turn comes.
pub open spec fn legal(b: Buzzer, events: Seq<BuzzerEvent>) -> bool
    decreases events.len(),
{
    events.len() == 0 || {
        &&& legal(b, events.drop_last())
        &&& run(b, events.drop_last()).admissible(events.last())
    }
}

/// The level of the pin after all of the events, if it was `pin` before them.
pub open spec fn pin_after(b: Buzzer, pin: PinLevel, events: Seq<BuzzerEvent>) -> PinLevel
    decreases events.len(),
{
    if events.len() == 0 {
        pin
    } else {
        match run(b, events.drop_last()).drive(events.last()).pin {
            Some(level) => level,
            None => pin_after(b, pin, events.drop_last()),
        }
    }
}

/// A pin that starts low is high exactly while a pulse sounds. So it is low
/// whenever the buzzer rests, decides, or waits to be told something.
pub proof fn law_the_pin_is_high_only_during_a_pulse(events: Seq<BuzzerEvent>)
    requires
        legal(Buzzer { is_buzzing: false, beat: Beat::Deciding }, events),
    ensures
        pin_after(
            Buzzer { is_buzzing: false, beat: Beat::Deciding },
            PinLevel::Low,
            events,
        ) == PinLevel::High <==> run(
            Buzzer { is_buzzing: false, beat: Beat::Deciding },
            events,
        ).beat == Beat::Sounding,
    decreases events.len(),
{
    if events.len() > 0 {
        law_the_pin_is_high_only_during_a_pulse(events.drop_last());
    }
}

/// A pulse sounds exactly if the buzzer was told to sound no longer than
/// `BUZZ_HOLD_MILLIS` ago.
pub proof fn law_only_a_recent_ping_sounds(b: Buzzer, event: BuzzerEvent)
    requires
        b.admissible(event),
    ensures
        b.drive(event).pin == Some(PinLevel::High) <==> (event matches BuzzerEvent::Told {
            state: BuzzerState::On(since),
            now,
        } && now - since <= clock::millis(BUZZ_HOLD_MILLIS as int)),
{
}

/// A pulse is to end at most `BUZZ_HOLD_MILLIS` and `PULSE_MILLIS` after the
/// buzzer was last told to sound.
pub proof fn law_sound_ends_soon_after_the_last_ping(b: Buzzer, since: u64, now: u64)
    requires
        b.admissible(BuzzerEvent::Told { state: BuzzerState::On(since), now }),
    ensures
        b.drive(BuzzerEvent::Told { state: BuzzerState::On(since), now }).next matches Next::Sleep(
            ticks,
        ) ==> now + ticks <= since + clock::millis(BUZZ_HOLD_MILLIS + PULSE_MILLIS),
{
}

/// What a look leads to. If the buzzer was told to sound no longer than
/// `BUZZ_HOLD_MILLIS` ago, the pin goes high for `PULSE_MILLIS`. If that is
/// longer ago, the pin goes low, the buzzer is told to be silent, and there is
/// another look. Neither depends on what was done before.
pub proof fn law_a_look_sounds_or_silences(b: Buzzer, since: u64, now: u64)
    ensures
        ({
            let told = BuzzerEvent::Told { state: BuzzerState::On(since), now };
            let recent = now - since <= BUZZ_HOLD_MILLIS * 1_000;
            let drive = b.drive(told);
            &&& drive.pin == Some(PinLevel::High) <==> recent
            &&& drive.pin == Some(PinLevel::Low) <==> !recent
            &&& drive.publish_off <==> !recent
            &&& drive.next == Next::Look <==> !recent
            &&& recent <==> (drive.next matches Next::Sleep(ticks) && ticks == PULSE_MILLIS * 1_000)
            &&& b.after(told).beat == Beat::Sounding <==> recent
            &&& b.after(told).beat == Beat::Deciding <==> !recent
            &&& b.after(told).is_buzzing <==> recent
        }),
{
}

/// Told to be silent, the buzzer waits to be told something else; it sets the
/// pin low first exactly if it has sounded since it was last silenced.
pub proof fn law_a_look_at_silence_waits(b: Buzzer, now: u64)
    ensures
        ({
            let told = BuzzerEvent::Told { state: BuzzerState::Off, now };
            let drive = b.drive(told);
            &&& drive.next == Next::AwaitChange
            &&& !drive.publish_off
            &&& drive.pin == Some(PinLevel::Low) <==> b.is_buzzing
            &&& drive.pin is None <==> !b.is_buzzing
            &&& !b.after(told).is_buzzing
            &&& b.after(told).beat == Beat::Deciding
        }),
{
}

/// After a pulse has sounded the pin goes low for `PULSE_MILLIS`; after that
/// there is a look, and the pin is left alone. Sleeping tells the buzzer nothing
/// and does not count as silencing it.
pub proof fn law_a_sleep_ends_in_a_pause_or_a_look(b: Buzzer)
    requires
        b.beat != Beat::Deciding,
    ensures
        ({
            let drive = b.drive(BuzzerEvent::Slept);
            let after = b.after(BuzzerEvent::Slept);
            &&& !drive.publish_off
            &&& after.is_buzzing == b.is_buzzing
            &&& drive.pin == Some(PinLevel::Low) <==> b.beat == Beat::Sounding
            &&& drive.pin is None <==> b.beat == Beat::Resting
            &&& b.beat == Beat::Sounding <==> (drive.next matches Next::Sleep(ticks) && ticks
                == PULSE_MILLIS * 1_000)
            &&& drive.next == Next::Look <==> b.beat == Beat::Resting
            &&& after.beat == Beat::Resting <==> b.beat == Beat::Sounding
            &&& after.beat == Beat::Deciding <==> b.beat == Beat::Resting
        }),
{
}

/// A look is taken exactly while no pulse is under way and if the clock is not
/// behind what the buzzer was told; the end of a sleep exactly during a pulse.
pub proof fn law_the_buzzer_takes_outcomes_of_what_it_asked(b: Buzzer, event: BuzzerEvent)
    ensures
        event is Slept ==> (b.admissible(event) <==> b.beat != Beat::Deciding),
        event matches BuzzerEvent::Told { state: BuzzerState::Off, .. } ==> (b.admissible(event)
            <==> b.beat == Beat::Deciding),
        event matches BuzzerEvent::Told { state: BuzzerState::On(since), now } ==> (b.admissible(
            event,
        ) <==> b.beat == Beat::Deciding && since <= now),
{
}

/// Without a new ping, the buzzer falls silent and is told so exactly when it
/// is first looked after more than `BUZZ_HOLD_MILLIS` after the last one.
pub proof fn law_the_buzzer_silences_itself(b: Buzzer, since: u64, now: u64)
    requires
        b.admissible(BuzzerEvent::Told { state: BuzzerState::On(since), now }),
    ensures
        ({
            let event = BuzzerEvent::Told { state: BuzzerState::On(since), now };
            now - since > clock::millis(BUZZ_HOLD_MILLIS as int) <==> b.drive(event) == (Drive {
                publish_off: true,
                pin: Some(PinLevel::Low),
                next: Next::Look,
            })
        }),
{
}

/// A pulse sounds for `PULSE_MILLIS`, rests for as long, and then looks again.
pub proof fn law_a_pulse_sounds_and_rests_equally_long(b: Buzzer, since: u64, now: u64)
    requires
        b.admissible(BuzzerEvent::Told { state: BuzzerState::On(since), now }),
        now - since <= BUZZ_HOLD_MILLIS * 1_000,
    ensures
        ({
            let told = BuzzerEvent::Told { state: BuzzerState::On(since), now };
            let sounding = b.after(told);
            let resting = sounding.after(BuzzerEvent::Slept);
            let ticks = clock::millis(PULSE_MILLIS as int) as u64;
            &&& sounding.admissible(BuzzerEvent::Slept) && resting.admissible(BuzzerEvent::Slept)
            &&& b.drive(told).pin == Some(PinLevel::High)
            &&& b.drive(told).next == Next::Sleep(ticks)
            &&& sounding.drive(BuzzerEvent::Slept).pin == Some(PinLevel::Low)
            &&& sounding.drive(BuzzerEvent::Slept).next == Next::Sleep(ticks)
            &&& resting.drive(BuzzerEvent::Slept).pin is None
            &&& resting.drive(BuzzerEvent::Slept).next == Next::Look
            &&& resting.after(BuzzerEvent::Slept).beat == Beat::Deciding
        }),
{
}

/// Told to be silent, the buzzer is silent: it touches the pin at most the
/// first time, and then waits to be told something else.
pub proof fn law_silence_is_kept(b: Buzzer, now: u64, later: u64)
    requires
        b.admissible(BuzzerEvent::Told { state: BuzzerState::Off, now }),
    ensures
        ({
            let silent = b.after(BuzzerEvent::Told { state: BuzzerState::Off, now });
            let again = BuzzerEvent::Told { state: BuzzerState::Off, now: later };
            &&& silent.admissible(again)
            &&& silent.after(again) == silent
            &&& silent.drive(again) == (Drive {
                publish_off: false,
                pin: None,
                next: Next::AwaitChange,
            })
        }),
{
}

/// The buzzer at a point in time.
pub struct Moment {
    pub buzzer: Buzzer,
    /// What the buzzer was last told.
    pub state: BuzzerState,
    pub pin: PinLevel,
    /// When the next event comes.
    pub now: u64,
}

/// The event that comes at a moment.
pub open spec fn event_at(m: Moment) -> BuzzerEvent {
    if m.buzzer.beat == Beat::Deciding {
        BuzzerEvent::Told { state: m.state, now: m.now }
    } else {
        BuzzerEvent::Slept
    }
}

/// The moment as it is when a session has told the buzzer to be silent, if
/// `off`, and as it was otherwise.
pub open spec fn told(m: Moment, off: bool) -> Moment {
    if off {
        Moment { state: BuzzerState::Off, ..m }
    } else {
        m
    }
}

/// The moment after the next event, if every sleep takes exactly its time and
/// nothing else takes any. Before the event a session may tell the buzzer to be
/// silent, as `off` says.
pub open spec fn moment_after(m: Moment, off: bool) -> Moment {
    let event = event_at(told(m, off));
    let drive = m.buzzer.drive(event);
    Moment {
        buzzer: m.buzzer.after(event),
        state: if drive.publish_off { BuzzerState::Off } else { told(m, off).state },
        pin: match drive.pin {
            Some(level) => level,
            None => m.pin,
        },
        now: match drive.next {
            Next::Sleep(ticks) => (m.now + ticks) as u64,
            _ => m.now,
        },
    }
}

/// The moment after as many events as there are items in `offs`, each of which
/// says whether a session tells the buzzer to be silent before the event.
pub open spec fn moments_after(m: Moment, offs: Seq<bool>) -> Moment
    decreases offs.len(),
{
    if offs.len() == 0 {
        m
    } else {
        moment_after(moments_after(m, offs.drop_last()), offs.last())
    }
}

/// The buzzer has just been told at `since` to sound: its next event comes at
/// once, or when the sleep that is under way ends.
pub open spec fn just_told(m: Moment, since: u64) -> bool {
    &&& m.state == BuzzerState::On(since)
    &&& since <= m.now <= since + clock::millis(PULSE_MILLIS as int)
    &&& m.pin == PinLevel::High <==> m.buzzer.beat == Beat::Sounding
}

/// What holds until the buzzer is told to sound again after `since`.
spec fn dying_down(m: Moment, since: u64) -> bool {
    &&& since <= m.now
    &&& m.pin == PinLevel::High <==> m.buzzer.beat == Beat::Sounding
    &&& m.now <= since + clock::millis(
        if m.buzzer.beat == Beat::Sounding {
            525
        } else {
            550
        },
    )
    &&& m.state == BuzzerState::Off || m.state == BuzzerState::On(since)
}

/// How many events there are at most until the buzzer has been told to be
/// silent and no pulse is under way.
spec fn events_left(m: Moment, since: u64) -> int {
    let looks = |now: int|
        if m.state == BuzzerState::Off {
            0
        } else if now > since + 500_000 {
            1
        } else {
            3 * ((since + 500_000 - now) / 50_000 + 1) + 1
        };
    match m.buzzer.beat {
        Beat::Deciding => looks(m.now as int),
        Beat::Sounding => 2 + looks(m.now + 25_000),
        Beat::Resting => 1 + looks(m.now as int),
    }
}

proof fn lemma_moment_after(m: Moment, since: u64, off: bool)
    requires
        since + clock::millis(550) <= u64::MAX,
        dying_down(m, since),
    ensures
        m.buzzer.admissible(event_at(told(m, off))),
        dying_down(moment_after(m, off), since),
        moment_after(m, off).pin == PinLevel::High ==> m.now <= since + clock::millis(500),
        off || m.state == BuzzerState::Off ==> {
            &&& moment_after(m, off).state == BuzzerState::Off
            &&& moment_after(m, off).pin == PinLevel::Low
        },
        events_left(m, since) == 0 ==> events_left(moment_after(m, off), since) == 0,
        events_left(m, since) > 0 ==> events_left(moment_after(m, off), since) < events_left(
            m,
            since,
        ),
{
}

proof fn lemma_moments_after(m: Moment, since: u64, offs: Seq<bool>)
    requires
        since + clock::millis(550) <= u64::MAX,
        just_told(m, since),
    ensures
        dying_down(moments_after(m, offs), since),
        events_left(moments_after(m, offs), since) == 0 || events_left(
            moments_after(m, offs),
            since,
        ) + offs.len() <= 35,
    decreases offs.len(),
{
    if offs.len() > 0 {
        lemma_moments_after(m, since, offs.drop_last());
        lemma_moment_after(moments_after(m, offs.drop_last()), since, offs.last());
    }
}

/// Without a newer ping than one at `since`, and with exact sleeps, no pulse
/// starts more than 500 ms after it, the pin is low from 525 ms after it on,
/// and the buzzer has been told to be silent by 550 ms after it, in at most 35
/// events. This holds whenever closing sessions tell the buzzer to be silent in
/// between; once one has, no further pulse starts.
pub proof fn law_sound_dies_down(m: Moment, since: u64, offs: Seq<bool>, off: bool)
    requires
        since + clock::millis((BUZZ_HOLD_MILLIS + 2 * PULSE_MILLIS) as int) <= u64::MAX,
        just_told(m, since),
    ensures
        ({
            let here = moments_after(m, offs);
            let there = moments_after(m, offs.push(off));
            &&& here.buzzer.admissible(event_at(told(here, off)))
            &&& there.pin == PinLevel::High ==> here.now <= since + clock::millis(
                BUZZ_HOLD_MILLIS as int,
            )
            &&& here.pin == PinLevel::High ==> here.now <= since + clock::millis(
                BUZZ_HOLD_MILLIS + PULSE_MILLIS,
            )
            &&& here.now <= since + clock::millis(BUZZ_HOLD_MILLIS + 2 * PULSE_MILLIS)
            &&& off || here.state == BuzzerState::Off ==> there.state == BuzzerState::Off
                && there.pin == PinLevel::Low
            &&& offs.len() >= 35 ==> here.state == BuzzerState::Off && here.pin == PinLevel::Low
        }),
{
    lemma_moments_after(m, since, offs);
    lemma_moment_after(moments_after(m, offs), since, off);
    assert(offs.push(off).drop_last() == offs);
}

} // verus!
