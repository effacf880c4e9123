//! The watchdog, which reports on the server from time to time.
//!
//! A [`WatchdogStep`] is what is to be done now; its outcome, a
//! [`WatchdogEvent`], decides on the next and may bring a report. There is no
//! last step. The watchdog only reads: nothing but reports comes out of it.

use crate::clock;
use crate::connections::{ConnectionCounters, MAX_CONCURRENT_CONNECTIONS};
use crate::session::SESSION_MIN_HEAP;
use vstd::prelude::*;

verus! {

/// Free heap, in bytes, below which the watchdog warns.
pub const WATCHDOG_MIN_HEAP: usize = 16384;

/// Seconds between two reports of the watchdog.
pub const WATCHDOG_PERIOD_SECS: u64 = 10;

/// A report of the watchdog.
#[derive(Clone, Copy, PartialEq, Eq, Structural, Debug)]
pub struct WatchdogReport {
    /// Free heap in KiB, rounded down.
    pub heap_kib: usize,
    pub active: u32,
    /// How many may be active.
    pub limit: u32,
    pub total: u32,
    pub rejected: u32,
    /// Little heap is left.
    pub low_heap: bool,
}

/// What is to be done.
#[derive(Clone, Copy, PartialEq, Eq, Structural, Debug)]
pub enum WatchdogStep {
    /// Sleep for this many ticks.
    Sleep(u64),
    /// Look at the counts of web sockets and the free heap.
    Look,
}

/// The outcome of a step.
#[derive(Clone, Copy, PartialEq, Eq, Structural, Debug)]
pub enum WatchdogEvent {
    /// The time to sleep is over.
    Slept,
    /// The counts are these, and `free_heap` bytes are free.
    Seen { counters: ConnectionCounters, free_heap: usize },
}

/// What follows on an outcome: the report is to be made, if there is one, and
/// then the step.
#[derive(Clone, Copy, PartialEq, Eq, Structural, Debug)]
pub struct WatchdogTurn {
    pub report: Option<WatchdogReport>,
    pub step: WatchdogStep,
}

impl WatchdogReport {
    /// The report while the counts are these and `free_heap` bytes are free.
    pub open spec fn of(counters: ConnectionCounters, free_heap: usize) -> WatchdogReport {
        WatchdogReport {
            heap_kib: free_heap / 1024,
            active: counters.active,
            limit: MAX_CONCURRENT_CONNECTIONS,
            total: counters.total,
            rejected: counters.rejected,
            low_heap: free_heap < WATCHDOG_MIN_HEAP,
        }
    }

    /// The report while the counts are these and `free_heap` bytes are free.
    pub fn new(counters: &ConnectionCounters, free_heap: usize) -> (report: WatchdogReport)
        ensures
            report == WatchdogReport::of(*counters, free_heap),
    {
        WatchdogReport {
            heap_kib: free_heap / 1024,
            active: counters.active,
            limit: MAX_CONCURRENT_CONNECTIONS,
            total: counters.total,
            rejected: counters.rejected,
            low_heap: free_heap < WATCHDOG_MIN_HEAP,
        }
    }
}

impl WatchdogStep {
    /// The pause before a report.
    pub open spec fn pause() -> WatchdogStep {
        WatchdogStep::Sleep(clock::secs(WATCHDOG_PERIOD_SECS as int) as u64)
    }

    /// The event is an outcome of the step.
    pub open spec fn admissible(self, event: WatchdogEvent) -> bool {
        match self {
            WatchdogStep::Sleep(_) => event is Slept,
            WatchdogStep::Look => event is Seen,
        }
    }

    /// What follows on an outcome.
    pub open spec fn after(self, event: WatchdogEvent) -> WatchdogTurn {
        match event {
            WatchdogEvent::Slept => WatchdogTurn { report: None, step: WatchdogStep::Look },
            WatchdogEvent::Seen { counters, free_heap } => WatchdogTurn {
                report: Some(WatchdogReport::of(counters, free_heap)),
                step: WatchdogStep::pause(),
            },
        }
    }

    /// The first step.
    pub fn first() -> (step: WatchdogStep)
        ensures
            step == WatchdogStep::pause(),
    {
        WatchdogStep::Sleep(clock::from_secs(WATCHDOG_PERIOD_SECS))
    }

    /// Whether [`next`](WatchdogStep::next) takes the event.
    pub fn admits(&self, event: &WatchdogEvent) -> (r: bool)
        ensures
            r == self.admissible(*event),
    {
        match *self {
            WatchdogStep::Sleep(_) => matches!(*event, WatchdogEvent::Slept),
            WatchdogStep::Look => matches!(*event, WatchdogEvent::Seen { .. }),
        }
    }

    /// What follows on an outcome of the step.
    pub fn next(self, event: WatchdogEvent) -> (turn: WatchdogTurn)
        requires
            self.admissible(event),
        ensures
            turn == self.after(event),
    {
        match event {
            WatchdogEvent::Slept => WatchdogTurn { report: None, step: WatchdogStep::Look },
            WatchdogEvent::Seen { counters, free_heap } => WatchdogTurn {
                report: Some(WatchdogReport::new(&counters, free_heap)),
                step: WatchdogStep::first(),
            },
        }
    }
}

/// An event and the time at which it comes, in ticks.
pub struct Timed {
    pub event: WatchdogEvent,
    pub at: int,
}

/// The step after all of the events.
pub open spec fn run(trace: Seq<Timed>) -> WatchdogStep
    decreases trace.len(),
{
    if trace.len() == 0 {
        WatchdogStep::pause()
    } else {
        run(trace.drop_last()).after(trace.last().event).step
    }
}

/// The report that the event at `i` brings.
pub open spec fn report_at(trace: Seq<Timed>, i: int) -> Option<WatchdogReport> {
    run(trace.take(i)).after(trace[i].event).report
}

/// When the last of the events comes; `start` if there is none.
pub open spec fn last_time(start: int, trace: Seq<Timed>) -> int {
    if trace.len() == 0 {
        start
    } else {
        trace.last().at
    }
}

/// The watchdog is started at `start`, each of the events is an outcome of the
/// step at its turn, none comes before the one ahead of it, and a sleep lasts
/// at least its time.
pub open spec fn legal(start: int, trace: Seq<Timed>) -> bool
    decreases trace.len(),
{
    trace.len() == 0 || {
        let before = trace.drop_last();
        &&& legal(start, before)
        &&& run(before).admissible(trace.last().event)
        &&& trace.last().at >= last_time(start, before) + match run(before) {
            WatchdogStep::Sleep(ticks) => ticks as int,
            WatchdogStep::Look => 0,
        }
    }
}

/// The time of a report that could be made after the trace keeps its distance
/// from the start and from all reports before.
spec fn spaced(start: int, trace: Seq<Timed>) -> bool {
    let period = clock::secs(WATCHDOG_PERIOD_SECS as int);
    &&& start <= last_time(start, trace)
    &&& forall|i: int|
        0 <= i < trace.len() ==> (#[trigger] trace[i]).at <= last_time(start, trace)
    &&& forall|i: int|
        0 <= i < trace.len() && (#[trigger] trace[i]).event is Seen ==> trace[i].at >= start
            + period
    &&& forall|i: int, j: int|
        0 <= i < j < trace.len() && (#[trigger] trace[i]).event is Seen && (
        #[trigger] trace[j]).event is Seen ==> trace[j].at >= trace[i].at + period
    &&& run(trace) == WatchdogStep::Look ==> {
        &&& last_time(start, trace) >= start + period
        &&& forall|i: int|
            0 <= i < trace.len() && (#[trigger] trace[i]).event is Seen ==> last_time(start, trace)
                >= trace[i].at + period
    }
    &&& run(trace) == WatchdogStep::Look || run(trace) == WatchdogStep::pause()
}

proof fn lemma_spaced(start: int, trace: Seq<Timed>)
    requires
        legal(start, trace),
    ensures
        spaced(start, trace),
    decreases trace.len(),
{
    if trace.len() > 0 {
        let before = trace.drop_last();
        lemma_spaced(start, before);
        assert(forall|i: int|
            #![trigger before[i]]
            #![trigger trace[i]]
            0 <= i < before.len() ==> before[i] == trace[i]);
        assert(trace.last() == trace[trace.len() - 1]);
    }
}

/// A look is always reported: the report gives the free heap in whole KiB and
/// the counts as they were seen, and warns exactly if fewer than
/// `WATCHDOG_MIN_HEAP` bytes were free, whatever the counts are.
pub proof fn law_a_report_warns_exactly_of_low_heap(
    step: WatchdogStep,
    counters: ConnectionCounters,
    free_heap: usize,
)
    ensures
        ({
            let report = WatchdogReport::of(counters, free_heap);
            &&& step.after(WatchdogEvent::Seen { counters, free_heap }).report == Some(report)
            &&& report.low_heap <==> free_heap < WATCHDOG_MIN_HEAP
            &&& report.heap_kib * 1024 <= free_heap < (report.heap_kib + 1) * 1024
            &&& report.active == counters.active
            &&& report.limit == MAX_CONCURRENT_CONNECTIONS
            &&& report.total == counters.total
            &&& report.rejected == counters.rejected
        }),
{
}

/// A look is followed by a sleep of `WATCHDOG_PERIOD_SECS`, and a sleep by a
/// look without a report; the first step is such a sleep too.
pub proof fn law_looks_and_sleeps_alternate(step: WatchdogStep, event: WatchdogEvent)
    ensures
        WatchdogStep::pause() matches WatchdogStep::Sleep(ticks) && ticks == WATCHDOG_PERIOD_SECS
            * 1_000_000,
        event is Seen <==> (step.after(event).step matches WatchdogStep::Sleep(ticks) && ticks
            == WATCHDOG_PERIOD_SECS * 1_000_000),
        event is Slept <==> step.after(event).step == WatchdogStep::Look,
        event is Slept <==> step.after(event).report is None,
{
}

/// A sleep has no outcome but its end, and a look none but what was seen.
pub proof fn law_the_watchdog_takes_outcomes_of_its_step(step: WatchdogStep, event: WatchdogEvent)
    ensures
        step.admissible(event) <==> (step is Sleep <==> event is Slept),
{
}

/// A report is made exactly when the watchdog has looked, and tells what it
/// then saw.
pub proof fn law_a_report_tells_what_was_seen(trace: Seq<Timed>, i: int)
    requires
        0 <= i < trace.len(),
    ensures
        report_at(trace, i) == match trace[i].event {
            WatchdogEvent::Slept => None,
            WatchdogEvent::Seen { counters, free_heap } => Some(
                WatchdogReport::of(counters, free_heap),
            ),
        },
{
}

/// Nothing is reported before `WATCHDOG_PERIOD_SECS` have passed since the
/// start.
pub proof fn law_the_first_report_comes_after_a_period(start: int, trace: Seq<Timed>, i: int)
    requires
        legal(start, trace),
        0 <= i < trace.len(),
        report_at(trace, i) is Some,
    ensures
        trace[i].at >= start + clock::secs(WATCHDOG_PERIOD_SECS as int),
{
    lemma_spaced(start, trace);
}

/// Any two reports are at least `WATCHDOG_PERIOD_SECS` apart.
pub proof fn law_reports_are_a_period_apart(start: int, trace: Seq<Timed>, i: int, j: int)
    requires
        legal(start, trace),
        0 <= i < j < trace.len(),
        report_at(trace, i) is Some,
        report_at(trace, j) is Some,
    ensures
        trace[j].at - trace[i].at >= clock::secs(WATCHDOG_PERIOD_SECS as int),
{
    lemma_spaced(start, trace);
}

/// The watchdog never ends: pauses and looks alternate for good.
pub proof fn law_the_watchdog_never_ends(start: int, trace: Seq<Timed>)
    requires
        legal(start, trace),
    ensures
        run(trace) == if trace.len() % 2 == 0 {
            WatchdogStep::pause()
        } else {
            WatchdogStep::Look
        },
        exists|event: WatchdogEvent| run(trace).admissible(event),
    decreases trace.len(),
{
    if trace.len() > 0 {
        law_the_watchdog_never_ends(start, trace.drop_last());
    }
    let zero = ConnectionCounters { active: 0, total: 0, rejected: 0 };
    assert(WatchdogStep::pause().admissible(WatchdogEvent::Slept));
    assert(WatchdogStep::Look.admissible(WatchdogEvent::Seen { counters: zero, free_heap: 0 }));
}

/// The watchdog warns of every amount of free heap for which sessions are
/// closed.
pub proof fn law_the_watchdog_warns_before_sessions_close(
    counters: ConnectionCounters,
    free_heap: usize,
)
    requires
        free_heap < SESSION_MIN_HEAP,
    ensures
        WatchdogReport::of(counters, free_heap).low_heap,
{
}

} // verus!
