use buzzer::buzzer::PinLevel;
use buzzer::close::CloseReason;
use buzzer::connections::{Admission, ConnectionCounters};
use buzzer::routes::{Method, SocketRoute, SwitchReply, SwitchRoute};
use buzzer::server::{network_poll_pause, network_seed, ServerEvent, ServerStep};
use buzzer::status::StatusResponse;
use buzzer::watchdog::{WatchdogEvent, WatchdogReport, WatchdogStep, WatchdogTurn};
use buzzer::wifi::{reconnect_pause, WifiEvent, WifiStep};

fn counters(active: u32, total: u32, rejected: u32) -> ConnectionCounters {
    ConnectionCounters { active, total, rejected }
}

#[test]
fn four_sockets_are_let_in() {
    let mut c = ConnectionCounters::new();
    for n in 1..=4 {
        assert_eq!(c.connect(), Admission::Accepted { active: n });
    }
    assert_eq!(c, counters(4, 4, 0));
    assert_eq!(
        c.connect(),
        Admission::Rejected { active: 4, reason: CloseReason::AtCapacity }
    );
    assert_eq!(c, counters(4, 4, 1));
}

#[test]
fn giving_back_makes_room() {
    let mut c = counters(4, 9, 2);
    c.disconnect();
    assert_eq!(c, counters(3, 9, 2));
    assert_eq!(c.connect(), Admission::Accepted { active: 4 });
    assert_eq!(c, counters(4, 10, 2));
}

#[test]
fn refused_socket_is_given_back_too() {
    let mut c = counters(4, 4, 0);
    assert_eq!(
        c.connect(),
        Admission::Rejected { active: 4, reason: CloseReason::AtCapacity }
    );
    c.disconnect();
    assert_eq!(c, counters(3, 4, 1));
    assert_eq!(c.connect(), Admission::Accepted { active: 4 });
}

#[test]
fn more_than_four_sockets_are_open_after_a_refusal() {
    let mut c = ConnectionCounters::new();
    let mut open = 0;
    for _ in 0..6 {
        match c.connect() {
            Admission::Accepted { .. } => open += 1,
            Admission::Rejected { .. } => c.disconnect(),
        }
    }
    assert_eq!(open, 5);
    assert_eq!(c, counters(4, 5, 1));
}

#[test]
fn refused_sockets_may_overlap() {
    let mut c = ConnectionCounters::new();
    for _ in 0..6 {
        c.connect();
    }
    assert_eq!(c, counters(4, 4, 2));
    c.disconnect();
    c.disconnect();
    assert_eq!(c, counters(2, 4, 2));
}

#[test]
fn counts_wrap_around() {
    let mut c = counters(0, u32::MAX, u32::MAX);
    assert_eq!(c.connect(), Admission::Accepted { active: 1 });
    assert_eq!(c, counters(1, 0, u32::MAX));
    c.disconnect();
    c.disconnect();
    assert_eq!(c, counters(u32::MAX, 0, u32::MAX));
    assert_eq!(
        c.connect(),
        Admission::Rejected { active: u32::MAX, reason: CloseReason::AtCapacity }
    );
    assert_eq!(c, counters(u32::MAX, 0, 0));
}

#[test]
fn status_tells_counts_and_heap() {
    assert_eq!(
        StatusResponse::new(&counters(1, 2, 3), 70_000),
        StatusResponse {
            status: "ok",
            active_connections: 1,
            total_connections: 2,
            rejected_connections: 3,
            free_heap: 70_000,
        }
    );
}

#[test]
fn status_tells_low_bits_of_a_huge_heap() {
    let c = ConnectionCounters::new();
    assert_eq!(StatusResponse::new(&c, usize::MAX).free_heap, u32::MAX);
    assert_eq!(StatusResponse::new(&c, usize::MAX - 5).free_heap, u32::MAX - 5);
}

#[test]
fn watchdog_reports() {
    assert_eq!(
        WatchdogReport::new(&counters(1, 2, 3), 16_384),
        WatchdogReport {
            heap_kib: 16,
            active: 1,
            limit: 4,
            total: 2,
            rejected: 3,
            low_heap: false,
        }
    );
    let report = WatchdogReport::new(&counters(0, 0, 0), 16_383);
    assert_eq!(report.heap_kib, 15);
    assert!(report.low_heap);
    assert!(WatchdogReport::new(&counters(0, 0, 0), 8_191).low_heap);
}

#[test]
fn watchdog_pauses_before_each_report() {
    let seen = WatchdogEvent::Seen { counters: counters(1, 2, 3), free_heap: 20_480 };
    let mut step = WatchdogStep::first();
    let mut now = 0;
    let mut reports = vec![];
    while reports.len() < 3 {
        let event = match step {
            WatchdogStep::Sleep(ticks) => {
                now += ticks;
                WatchdogEvent::Slept
            }
            WatchdogStep::Look => seen,
        };
        assert!(step.admits(&event));
        let turn = step.next(event);
        if turn.report.is_some() {
            assert_eq!(
                turn,
                WatchdogTurn {
                    report: Some(WatchdogReport {
                        heap_kib: 20,
                        active: 1,
                        limit: 4,
                        total: 2,
                        rejected: 3,
                        low_heap: false,
                    }),
                    step: WatchdogStep::Sleep(10_000_000),
                }
            );
            reports.push(now);
        } else {
            assert_eq!(turn, WatchdogTurn { report: None, step: WatchdogStep::Look });
        }
        step = turn.step;
    }
    assert_eq!(reports, [10_000_000, 20_000_000, 30_000_000]);
}

#[test]
fn watchdog_admits_only_outcomes_of_its_step() {
    let seen = WatchdogEvent::Seen { counters: counters(0, 0, 0), free_heap: 0 };
    assert!(!WatchdogStep::first().admits(&seen));
    assert!(!WatchdogStep::Look.admits(&WatchdogEvent::Slept));
}

#[test]
fn pauses_in_ticks() {
    assert_eq!(WatchdogStep::first(), WatchdogStep::Sleep(10_000_000));
    assert_eq!(reconnect_pause(), 5_000_000);
    assert_eq!(network_poll_pause(), 500_000);
}

#[test]
fn seed_has_both_words() {
    assert_eq!(network_seed(0, 0), 0);
    assert_eq!(network_seed(0x0123_4567, 0x89ab_cdef), 0x0123_4567_89ab_cdef);
    assert_eq!(network_seed(u32::MAX, u32::MAX), u64::MAX);
}

fn wifi(step: WifiStep, event: WifiEvent) -> WifiStep {
    assert!(step.admits(&event));
    step.next(event)
}

#[test]
fn wifi_starts_a_stopped_radio() {
    let step = wifi(WifiStep::first(), WifiEvent::Station { connected: false });
    assert_eq!(step, WifiStep::QueryRadio);
    for started in [None, Some(false)] {
        let step = wifi(step, WifiEvent::Radio { started });
        assert_eq!(step, WifiStep::Configure);
        let step = wifi(step, WifiEvent::Configured);
        assert_eq!(step, WifiStep::Start);
        assert_eq!(wifi(step, WifiEvent::Started), WifiStep::Connect);
    }
    assert_eq!(wifi(step, WifiEvent::Radio { started: Some(true) }), WifiStep::Connect);
}

#[test]
fn wifi_reconnects_after_a_pause() {
    let step = wifi(WifiStep::Connect, WifiEvent::Attempted { success: true });
    assert_eq!(step, WifiStep::QueryStation);
    let step = wifi(step, WifiEvent::Station { connected: true });
    assert_eq!(step, WifiStep::AwaitDisconnect);
    let step = wifi(step, WifiEvent::Disconnected);
    assert_eq!(step, WifiStep::PauseAfterDisconnect);
    assert_eq!(wifi(step, WifiEvent::Paused), WifiStep::QueryRadio);
}

#[test]
fn wifi_retries_after_a_pause() {
    let step = wifi(WifiStep::Connect, WifiEvent::Attempted { success: false });
    assert_eq!(step, WifiStep::PauseAfterFailure);
    assert_eq!(wifi(step, WifiEvent::Paused), WifiStep::QueryStation);
}

#[test]
fn wifi_attempts_again_after_the_longest_way_round() {
    let outcomes = [
        WifiEvent::Attempted { success: false },
        WifiEvent::Paused,
        WifiEvent::Station { connected: true },
        WifiEvent::Disconnected,
        WifiEvent::Paused,
        WifiEvent::Radio { started: Some(false) },
        WifiEvent::Configured,
        WifiEvent::Started,
    ];
    let mut step = WifiStep::Connect;
    for (i, event) in outcomes.iter().enumerate() {
        step = wifi(step, *event);
        assert_eq!(step == WifiStep::Connect, i == outcomes.len() - 1);
    }
}

#[test]
fn wifi_admits_only_outcomes_of_its_step() {
    let steps = [
        WifiStep::QueryStation,
        WifiStep::AwaitDisconnect,
        WifiStep::PauseAfterDisconnect,
        WifiStep::QueryRadio,
        WifiStep::Configure,
        WifiStep::Start,
        WifiStep::Connect,
        WifiStep::PauseAfterFailure,
    ];
    let events = [
        WifiEvent::Station { connected: true },
        WifiEvent::Disconnected,
        WifiEvent::Paused,
        WifiEvent::Radio { started: None },
        WifiEvent::Configured,
        WifiEvent::Started,
        WifiEvent::Attempted { success: true },
    ];
    let outcome = [0, 1, 2, 3, 4, 5, 6, 2];
    for (i, step) in steps.iter().enumerate() {
        for (j, event) in events.iter().enumerate() {
            assert_eq!(step.admits(event), outcome[i] == j);
        }
    }
}

fn serve(step: ServerStep, event: ServerEvent) -> ServerStep {
    assert!(step.admits(&event));
    step.next(event)
}

#[test]
fn server_waits_for_link_and_address() {
    let step = serve(ServerStep::first(), ServerEvent::Link { up: false });
    assert_eq!(step, ServerStep::PauseForLink);
    let step = serve(step, ServerEvent::Paused);
    assert_eq!(step, ServerStep::QueryLink);
    let step = serve(step, ServerEvent::Link { up: true });
    assert_eq!(step, ServerStep::QueryAddress);
    let step = serve(step, ServerEvent::Address { assigned: false });
    assert_eq!(step, ServerStep::PauseForAddress);
    let step = serve(step, ServerEvent::Paused);
    assert_eq!(step, ServerStep::QueryAddress);
    let step = serve(step, ServerEvent::Address { assigned: true });
    assert_eq!(step, ServerStep::Serve);
}

#[test]
fn server_admits_only_outcomes_of_its_step() {
    let link = ServerEvent::Link { up: true };
    let address = ServerEvent::Address { assigned: true };
    assert!(!ServerStep::QueryLink.admits(&address));
    assert!(!ServerStep::QueryAddress.admits(&link));
    assert!(!ServerStep::PauseForLink.admits(&link));
    for event in [link, address, ServerEvent::Paused] {
        assert!(!ServerStep::Serve.admits(&event));
    }
}

#[test]
fn socket_routes() {
    assert_eq!(SocketRoute::Buzz.path(), "/buzz");
    assert_eq!(SocketRoute::Status.path(), "/status");
    assert_eq!(SocketRoute::Buzz.method(), Method::Get);
    assert_eq!(SocketRoute::Status.method(), Method::Get);
}

#[test]
fn switch_routes() {
    assert_eq!(SwitchRoute::Start.path(), "/buzz/start");
    assert_eq!(SwitchRoute::Stop.path(), "/buzz/stop");
    assert_eq!(SwitchRoute::Heartbeat.path(), "/buzz/heartbeat");
    assert_eq!(SwitchRoute::Status.path(), "/status");
    assert_eq!(SwitchRoute::Start.method(), Method::Post);
    assert_eq!(SwitchRoute::Stop.method(), Method::Post);
    assert_eq!(SwitchRoute::Heartbeat.method(), Method::Post);
    assert_eq!(SwitchRoute::Status.method(), Method::Get);
    assert_eq!(
        SwitchRoute::Start.reply(),
        SwitchReply { pin: Some(PinLevel::High), status: "buzzing" }
    );
    assert_eq!(
        SwitchRoute::Stop.reply(),
        SwitchReply { pin: Some(PinLevel::Low), status: "stopped" }
    );
    assert_eq!(SwitchRoute::Heartbeat.reply(), SwitchReply { pin: None, status: "alive" });
    assert_eq!(SwitchRoute::Status.reply(), SwitchReply { pin: None, status: "ok" });
}

fn pin_after(mut pin: PinLevel, routes: &[SwitchRoute]) -> PinLevel {
    for route in routes {
        if let Some(level) = route.reply().pin {
            pin = level;
        }
    }
    pin
}

#[test]
fn last_switch_decides() {
    let quiet = [SwitchRoute::Heartbeat, SwitchRoute::Status];
    let started = [SwitchRoute::Stop, SwitchRoute::Start, SwitchRoute::Heartbeat];
    let stopped = [SwitchRoute::Start, SwitchRoute::Stop, SwitchRoute::Status];
    for pin in [PinLevel::Low, PinLevel::High] {
        assert_eq!(pin_after(pin, &quiet), pin);
        assert_eq!(pin_after(pin, &started), PinLevel::High);
        assert_eq!(pin_after(pin, &stopped), PinLevel::Low);
    }
}
