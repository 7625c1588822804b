//! The monitor's decisions.
//!
//! A background worker prints a header when monitoring is enabled, then one
//! line of statistics for every second that passes with no signal, until it
//! is disabled; it acknowledges a disable only once it is back to idle, so
//! no line follows the return of the disabling call. The worker itself
//! (its thread, channels and clock) lives with the caller: it waits as
//! [`MonitorState::wait_limit`] says, hands each event to
//! [`MonitorState::step`] and carries out the action that comes back.

use vstd::prelude::*;

use crate::kstat::PhysicalMemoryStats;
use crate::swap::AnonInfo;
use crate::bytesize_display::ByteSizeDisplayGiB;
use crate::text::{gib_string, gib_text, pad_left, push_left_padded};
use crate::PAGE_SIZE;

verus! {

/// How long the active monitor waits for a signal before it prints a line.
pub const POLL_INTERVAL_MS: u64 = 1000;

/// Whether the monitor is printing.
#[derive(Debug, Clone, Copy, PartialEq, Eq, Structural)]
pub enum MonitorState {
    Idle,
    Active,
}

/// What the worker saw while it waited.
#[derive(Debug, Clone, Copy, PartialEq, Eq, Structural)]
pub enum MonitorEvent {
    /// A signal to start printing.
    Enable,
    /// A signal to stop printing, which wants an acknowledgment.
    Disable,
    /// The wait ran out with no signal.
    Tick,
    /// The signal channel closed: the session went away.
    Closed,
}

/// A signal that does not fit the state: the caller failed to pair enable
/// with disable.
#[derive(Debug, Clone, Copy, PartialEq, Eq, Structural)]
pub enum MonitorFault {
    /// Enable while already active.
    AlreadyActive,
    /// Disable while already idle.
    AlreadyIdle,
}

/// What the worker does next.
#[derive(Debug, Clone, Copy, PartialEq, Eq, Structural)]
pub enum MonitorAction {
    /// Print the column header.
    PrintHeader,
    /// Take one sample of the counters and print one line.
    PrintSample,
    /// Reply to the disabling caller.
    Acknowledge,
    /// Nothing; wait again.
    Nothing,
    /// End the worker.
    Exit,
    /// End the worker on a caller's bug.
    Fault(MonitorFault),
}

/// The transition of the monitor on one event: the next state and the
/// action to carry out.
pub open spec fn step(s: MonitorState, e: MonitorEvent) -> (MonitorState, MonitorAction) {
    match e {
        MonitorEvent::Closed => (s, MonitorAction::Exit),
        MonitorEvent::Enable => match s {
            MonitorState::Idle => (MonitorState::Active, MonitorAction::PrintHeader),
            MonitorState::Active => (
                MonitorState::Active,
                MonitorAction::Fault(MonitorFault::AlreadyActive),
            ),
        },
        MonitorEvent::Disable => match s {
            MonitorState::Idle => (
                MonitorState::Idle,
                MonitorAction::Fault(MonitorFault::AlreadyIdle),
            ),
            MonitorState::Active => (MonitorState::Idle, MonitorAction::Acknowledge),
        },
        MonitorEvent::Tick => match s {
            MonitorState::Idle => (MonitorState::Idle, MonitorAction::Nothing),
            MonitorState::Active => (MonitorState::Active, MonitorAction::PrintSample),
        },
    }
}

/// Whether the worker stops after this action.
pub open spec fn ends_worker(a: MonitorAction) -> bool {
    a is Exit || a is Fault
}

/// The final state and the actions of a worker that starts in `s` and sees
/// `events` in order; it stops at the first action that ends it.
pub open spec fn run(s: MonitorState, events: Seq<MonitorEvent>) -> (MonitorState, Seq<MonitorAction>)
    decreases events.len(),
{
    if events.len() == 0 {
        (s, Seq::empty())
    } else {
        let (next, action) = step(s, events[0]);
        if ends_worker(action) {
            (next, seq![action])
        } else {
            let (last, rest) = run(next, events.drop_first());
            (last, seq![action] + rest)
        }
    }
}

/// `n` ticks.
pub open spec fn ticks(n: nat) -> Seq<MonitorEvent> {
    Seq::new(n, |i: int| MonitorEvent::Tick)
}

/// `n` sample lines.
pub open spec fn samples(n: nat) -> Seq<MonitorAction> {
    Seq::new(n, |i: int| MonitorAction::PrintSample)
}

impl MonitorState {
    /// How long to wait for the next signal, in milliseconds: without limit
    /// while idle, [`POLL_INTERVAL_MS`] while active.
    pub fn wait_limit(&self) -> (r: Option<u64>)
        ensures
            r == (match self {
                MonitorState::Idle => None,
                MonitorState::Active => Some(POLL_INTERVAL_MS),
            }),
    {
        match self {
            MonitorState::Idle => None,
            MonitorState::Active => Some(POLL_INTERVAL_MS),
        }
    }

    /// The next state and the action to take on `event`.
    pub fn step(self, event: MonitorEvent) -> (r: (MonitorState, MonitorAction))
        ensures
            r == step(self, event),
    {
        match event {
            MonitorEvent::Closed => (self, MonitorAction::Exit),
            MonitorEvent::Enable => match self {
                MonitorState::Idle => (MonitorState::Active, MonitorAction::PrintHeader),
                MonitorState::Active => (
                    MonitorState::Active,
                    MonitorAction::Fault(MonitorFault::AlreadyActive),
                ),
            },
            MonitorEvent::Disable => match self {
                MonitorState::Idle => (
                    MonitorState::Idle,
                    MonitorAction::Fault(MonitorFault::AlreadyIdle),
                ),
                MonitorState::Active => (MonitorState::Idle, MonitorAction::Acknowledge),
            },
            MonitorEvent::Tick => match self {
                MonitorState::Idle => (MonitorState::Idle, MonitorAction::Nothing),
                MonitorState::Active => (MonitorState::Active, MonitorAction::PrintSample),
            },
        }
    }
}

/// An acknowledgment is given only by an active monitor, which is idle
/// once it is given.
pub proof fn lemma_acknowledge_leaves_idle(s: MonitorState, e: MonitorEvent)
    ensures
        step(s, e).1 == MonitorAction::Acknowledge ==> s == MonitorState::Active && step(s, e).0
            == MonitorState::Idle,
{
}

proof fn lemma_active_ticks_then_disable(n: nat)
    ensures
        run(MonitorState::Active, ticks(n) + seq![MonitorEvent::Disable]) == (
            MonitorState::Idle,
            samples(n) + seq![MonitorAction::Acknowledge],
        ),
    decreases n,
{
    let events = ticks(n) + seq![MonitorEvent::Disable];
    if n == 0 {
        assert(events =~= seq![MonitorEvent::Disable]);
        assert(events.drop_first() =~= Seq::<MonitorEvent>::empty());
        assert(run(MonitorState::Idle, Seq::<MonitorEvent>::empty()) == (
            MonitorState::Idle,
            Seq::<MonitorAction>::empty(),
        ));
        assert(samples(0) + seq![MonitorAction::Acknowledge] =~= seq![MonitorAction::Acknowledge]);
        assert(seq![MonitorAction::Acknowledge] + Seq::<MonitorAction>::empty()
            =~= seq![MonitorAction::Acknowledge]);
    } else {
        lemma_active_ticks_then_disable((n - 1) as nat);
        assert(events[0] == MonitorEvent::Tick);
        assert(events.drop_first() =~= ticks((n - 1) as nat) + seq![MonitorEvent::Disable]);
        assert(samples(n) + seq![MonitorAction::Acknowledge] =~= seq![MonitorAction::PrintSample]
            + (samples((n - 1) as nat) + seq![MonitorAction::Acknowledge]));
    }
}

/// Enabling, letting `n` intervals pass with no signal, then disabling
/// prints the header, exactly `n` lines (none when the disable comes before
/// the first interval has passed) and then acknowledges, back to idle.
pub proof fn lemma_enable_ticks_disable(n: nat)
    ensures
        run(
            MonitorState::Idle,
            seq![MonitorEvent::Enable] + ticks(n) + seq![MonitorEvent::Disable],
        ) == (
            MonitorState::Idle,
            seq![MonitorAction::PrintHeader] + samples(n) + seq![MonitorAction::Acknowledge],
        ),
{
    let events = seq![MonitorEvent::Enable] + ticks(n) + seq![MonitorEvent::Disable];
    lemma_active_ticks_then_disable(n);
    assert(events[0] == MonitorEvent::Enable);
    assert(events.drop_first() =~= ticks(n) + seq![MonitorEvent::Disable]);
    assert(seq![MonitorAction::PrintHeader] + samples(n) + seq![MonitorAction::Acknowledge]
        =~= seq![MonitorAction::PrintHeader] + (samples(n) + seq![MonitorAction::Acknowledge]));
}

/// An idle monitor that is not enabled prints no line, whatever else it
/// sees: after the acknowledgment of a disable nothing is printed until the
/// next enable.
pub proof fn lemma_idle_prints_nothing(events: Seq<MonitorEvent>)
    requires
        forall|i: int| 0 <= i < events.len() ==> events[i] != MonitorEvent::Enable,
    ensures
        run(MonitorState::Idle, events).0 == MonitorState::Idle,
        forall|j: int|
            0 <= j < run(MonitorState::Idle, events).1.len() ==> run(
                MonitorState::Idle,
                events,
            ).1[j] != MonitorAction::PrintSample && run(MonitorState::Idle, events).1[j]
                != MonitorAction::PrintHeader,
    decreases events.len(),
{
    if events.len() > 0 {
        let rest = events.drop_first();
        assert forall|i: int| 0 <= i < rest.len() implies rest[i] != MonitorEvent::Enable by {
            assert(rest[i] == events[i + 1]);
        }
        lemma_idle_prints_nothing(rest);
    }
}

/// The monitor's column header.
pub open spec fn header_line() -> Seq<char> {
    "FREE  SWAP_ALLOC SWAP_RESV SWAP_TOTAL"@
}

/// One line of the monitor: free physical memory, then allocated, reserved
/// but unallocated, and total swap, each in gibibytes with one decimal,
/// right-aligned in columns of five, ten, nine and ten.
pub open spec fn sample_line(free_bytes: nat, swap: AnonInfo) -> Seq<char> {
    pad_left(gib_text(free_bytes), 5) + " "@ + pad_left(gib_text(swap.spec_allocated() as nat), 10)
        + " "@ + pad_left(gib_text(swap.spec_reserved() as nat), 9) + " "@ + pad_left(
        gib_text(swap.spec_total() as nat),
        10,
    )
}

/// The monitor's column header.
pub fn monitor_header() -> (r: &'static str)
    ensures
        r@ == header_line(),
{
    "FREE  SWAP_ALLOC SWAP_RESV SWAP_TOTAL"
}

/// The line the monitor prints for one sample.
pub fn monitor_line(physmem: &PhysicalMemoryStats, swap: &AnonInfo) -> (r: String)
    ensures
        r@ == sample_line((physmem.freemem * PAGE_SIZE) as nat, *swap),
{
    let free_bytes: u128 = (physmem.freemem as u128) * (PAGE_SIZE as u128);
    let mut s = String::new();
    let free = gib_string(free_bytes);
    push_left_padded(&mut s, free.as_str(), 5);
    s.append(" ");
    let allocated = ByteSizeDisplayGiB(swap.allocated()).to_string_width(10);
    s.append(allocated.as_str());
    s.append(" ");
    let reserved = ByteSizeDisplayGiB(swap.reserved()).to_string_width(9);
    s.append(reserved.as_str());
    s.append(" ");
    let total = ByteSizeDisplayGiB(swap.total()).to_string_width(10);
    s.append(total.as_str());
    assert(s@ =~= sample_line((physmem.freemem * PAGE_SIZE) as nat, *swap));
    s
}

} // verus!
