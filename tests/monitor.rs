use swappy::kstat::PhysicalMemoryStats;
use swappy::monitor::{
    monitor_header, monitor_line, MonitorAction, MonitorEvent, MonitorFault, MonitorState,
    POLL_INTERVAL_MS,
};
use swappy::swap::AnonInfo;

fn run(events: &[MonitorEvent]) -> (MonitorState, Vec<MonitorAction>) {
    let mut state = MonitorState::Idle;
    let mut actions = Vec::new();
    for e in events {
        let (next, action) = state.step(*e);
        state = next;
        actions.push(action);
    }
    (state, actions)
}

#[test]
fn transitions() {
    let idle = MonitorState::Idle;
    let active = MonitorState::Active;
    assert_eq!(idle.step(MonitorEvent::Enable), (active, MonitorAction::PrintHeader));
    assert_eq!(active.step(MonitorEvent::Tick), (active, MonitorAction::PrintSample));
    assert_eq!(active.step(MonitorEvent::Disable), (idle, MonitorAction::Acknowledge));
    assert_eq!(idle.step(MonitorEvent::Tick), (idle, MonitorAction::Nothing));
    assert_eq!(idle.step(MonitorEvent::Closed), (idle, MonitorAction::Exit));
    assert_eq!(active.step(MonitorEvent::Closed), (active, MonitorAction::Exit));
}

#[test]
fn unpaired_signals_are_faults() {
    assert_eq!(
        MonitorState::Active.step(MonitorEvent::Enable).1,
        MonitorAction::Fault(MonitorFault::AlreadyActive)
    );
    assert_eq!(
        MonitorState::Idle.step(MonitorEvent::Disable).1,
        MonitorAction::Fault(MonitorFault::AlreadyIdle)
    );
}

#[test]
fn waits_forever_when_idle_and_one_second_when_active() {
    assert_eq!(MonitorState::Idle.wait_limit(), None);
    assert_eq!(MonitorState::Active.wait_limit(), Some(1000));
    assert_eq!(POLL_INTERVAL_MS, 1000);
}

#[test]
fn quick_disable_prints_no_sample() {
    let (state, actions) = run(&[MonitorEvent::Enable, MonitorEvent::Disable]);
    assert_eq!(state, MonitorState::Idle);
    assert_eq!(actions, vec![MonitorAction::PrintHeader, MonitorAction::Acknowledge]);
}

#[test]
fn slow_disable_prints_samples_then_acknowledges() {
    let (state, actions) = run(&[
        MonitorEvent::Enable,
        MonitorEvent::Tick,
        MonitorEvent::Tick,
        MonitorEvent::Disable,
    ]);
    assert_eq!(state, MonitorState::Idle);
    assert_eq!(
        actions,
        vec![
            MonitorAction::PrintHeader,
            MonitorAction::PrintSample,
            MonitorAction::PrintSample,
            MonitorAction::Acknowledge,
        ]
    );
}

#[test]
fn nothing_printed_after_acknowledge() {
    let (_, actions) = run(&[
        MonitorEvent::Enable,
        MonitorEvent::Disable,
        MonitorEvent::Tick,
        MonitorEvent::Tick,
    ]);
    assert_eq!(&actions[2..], &[MonitorAction::Nothing, MonitorAction::Nothing]);
}

#[test]
fn header_text() {
    assert_eq!(
        monitor_header(),
        format!("{:5} {:10} {:9} {:10}", "FREE", "SWAP_ALLOC", "SWAP_RESV", "SWAP_TOTAL")
    );
}

#[test]
fn sample_line_matches_float_rendering() {
    let physmem = PhysicalMemoryStats {
        physmem: 4_194_304,
        freemem: 1_000_000,
        availrmem: 0,
        lotsfree: 0,
        desfree: 0,
        minfree: 0,
    };
    let swap = AnonInfo::new(2_097_152, 1_000_000, 1_500_000).unwrap();
    let g = |b: u64| b as f64 / 1024.0 / 1024.0 / 1024.0;
    let expected = format!(
        "{:>5} {:>10} {:>9} {:>10}",
        format!("{:.1}", g(1_000_000 * 4096)),
        format!("{:.1}", g(swap.allocated())),
        format!("{:.1}", g(swap.reserved())),
        format!("{:.1}", g(swap.total())),
    );
    assert_eq!(monitor_line(&physmem, &swap), expected);
    assert_eq!(monitor_line(&physmem, &swap), "  3.8        4.2       1.5        8.0");
}
