use buzzer::buzzer::{Beat, Buzzer, BuzzerEvent, BuzzerState, Drive, Next, PinLevel, Signal};

const MILLISECOND: u64 = 1_000;

fn drive(buzzer: &mut Buzzer, event: BuzzerEvent) -> Drive {
    assert!(buzzer.admits(&event));
    buzzer.step(event)
}

fn told_on(since: u64, now: u64) -> BuzzerEvent {
    BuzzerEvent::Told { state: BuzzerState::On(since), now }
}

fn told_off(now: u64) -> BuzzerEvent {
    BuzzerEvent::Told { state: BuzzerState::Off, now }
}

#[test]
fn signals_become_states() {
    assert_eq!(Signal::On.at(17), BuzzerState::On(17));
    assert_eq!(Signal::Off.at(17), BuzzerState::Off);
}

#[test]
fn new_buzzer_waits_without_touching_the_pin() {
    assert_eq!(Buzzer::first(), Next::Look);
    let mut buzzer = Buzzer::new();
    assert_eq!(
        drive(&mut buzzer, told_off(0)),
        Drive { publish_off: false, pin: None, next: Next::AwaitChange }
    );
    assert_eq!(buzzer, Buzzer::new());
}

#[test]
fn pulse_sounds_and_rests() {
    let mut buzzer = Buzzer::new();
    assert_eq!(
        drive(&mut buzzer, told_on(10, 10)),
        Drive { publish_off: false, pin: Some(PinLevel::High), next: Next::Sleep(25_000) }
    );
    assert_eq!(buzzer, Buzzer { is_buzzing: true, beat: Beat::Sounding });
    assert_eq!(
        drive(&mut buzzer, BuzzerEvent::Slept),
        Drive { publish_off: false, pin: Some(PinLevel::Low), next: Next::Sleep(25_000) }
    );
    assert_eq!(
        drive(&mut buzzer, BuzzerEvent::Slept),
        Drive { publish_off: false, pin: None, next: Next::Look }
    );
    assert_eq!(buzzer, Buzzer { is_buzzing: true, beat: Beat::Deciding });
}

#[test]
fn buzzer_holds_for_half_a_second() {
    let mut buzzer = Buzzer::new();
    assert_eq!(drive(&mut buzzer, told_on(7, 7 + 500 * MILLISECOND)).pin, Some(PinLevel::High));
    let mut buzzer = Buzzer { is_buzzing: true, beat: Beat::Deciding };
    assert_eq!(
        drive(&mut buzzer, told_on(7, 8 + 500 * MILLISECOND)),
        Drive { publish_off: true, pin: Some(PinLevel::Low), next: Next::Look }
    );
    assert_eq!(buzzer, Buzzer::new());
}

#[test]
fn silence_sets_the_pin_once() {
    let mut buzzer = Buzzer { is_buzzing: true, beat: Beat::Deciding };
    assert_eq!(
        drive(&mut buzzer, told_off(3)),
        Drive { publish_off: false, pin: Some(PinLevel::Low), next: Next::AwaitChange }
    );
    assert_eq!(drive(&mut buzzer, told_off(4)).pin, None);
}

/// The number of pulses, when the last one starts and ends, and when the buzzer
/// is told to be silent, if `idle` ticks pass with every look and a session ends
/// at `ended`.
fn die_down(mut buzzer: Buzzer, mut now: u64, idle: u64, ended: u64) -> (u32, u64, u64, u64) {
    let mut state = BuzzerState::On(0);
    let mut pin = if buzzer.beat == Beat::Sounding { PinLevel::High } else { PinLevel::Low };
    let (mut pulses, mut start, mut end, mut silent) = (0, 0, 0, 0);
    loop {
        if now >= ended && state != BuzzerState::Off {
            state = BuzzerState::Off;
            silent = ended;
        }
        let event = if buzzer.beat == Beat::Deciding {
            BuzzerEvent::Told { state, now }
        } else {
            BuzzerEvent::Slept
        };
        let drive = drive(&mut buzzer, event);
        if drive.publish_off {
            state = BuzzerState::Off;
            silent = now;
        }
        if let Some(level) = drive.pin {
            if level == PinLevel::High {
                pulses += 1;
                start = now;
            } else if pin == PinLevel::High {
                end = now;
            }
            pin = level;
        }
        assert_eq!(pin == PinLevel::High, buzzer.beat == Beat::Sounding);
        match drive.next {
            Next::Look => now += idle,
            Next::Sleep(ticks) => now += ticks,
            Next::AwaitChange => return (pulses, start, end, silent),
        }
    }
}

#[test]
fn sound_dies_down_at_the_latest_times() {
    assert_eq!(die_down(Buzzer::new(), 0, 0, u64::MAX), (11, 500_000, 525_000, 550_000));
    let sounding = Buzzer { is_buzzing: true, beat: Beat::Sounding };
    assert_eq!(die_down(sounding, 10_000, 0, u64::MAX), (10, 485_000, 510_000, 535_000));
    let resting = Buzzer { is_buzzing: true, beat: Beat::Resting };
    assert_eq!(die_down(resting, 0, 0, u64::MAX), (11, 500_000, 525_000, 550_000));
}

#[test]
fn end_of_a_session_stops_further_pulses() {
    assert_eq!(die_down(Buzzer::new(), 0, 0, 60_000), (2, 50_000, 75_000, 60_000));
    assert_eq!(die_down(Buzzer::new(), 0, 0, 90_000), (2, 50_000, 75_000, 90_000));
}

#[test]
fn slow_looks_cost_a_pulse() {
    assert_eq!(die_down(Buzzer::new(), 0, 1, u64::MAX), (10, 450_009, 475_009, 500_010));
}

#[test]
fn buzzer_admits_only_what_it_asked_for() {
    let deciding = Buzzer::new();
    assert!(deciding.admits(&told_on(5, 5)));
    assert!(!deciding.admits(&told_on(6, 5)));
    assert!(!deciding.admits(&BuzzerEvent::Slept));
    for beat in [Beat::Sounding, Beat::Resting] {
        let pulsing = Buzzer { is_buzzing: true, beat };
        assert!(!pulsing.admits(&told_off(5)));
        assert!(pulsing.admits(&BuzzerEvent::Slept));
    }
}
