use cbmt_harness::interrupt::{on_interrupt, InterruptAction};
use cbmt_harness::monitor::{MonitorDisplay, SimulationOutcome};
use cbmt_harness::waiter::{epoch_poll, slot_advanced, slots_remaining, EpochPoll};
use cbmt_harness::worker::{keep_running, WorkerAction, WorkerState, BACKOFF_MS};

#[test]
fn worker_counts_every_iteration() {
    let mut w = WorkerState::new(7);
    let outcomes = [true, false, true, true, false, true];
    for ok in outcomes {
        assert!(w.can_record());
        w.record(ok);
    }
    assert_eq!(w.id, 7);
    assert_eq!(w.success_count, 4);
    assert_eq!(w.error_count, 2);
    assert_eq!(w.iterations(), outcomes.len() as u64);
}

#[test]
fn worker_backs_off_only_after_failure() {
    let mut w = WorkerState::new(1);
    assert_eq!(w.record(true), WorkerAction::Continue);
    assert_eq!(w.record(false), WorkerAction::Backoff(BACKOFF_MS));
    assert_eq!(BACKOFF_MS, 200);
}

#[test]
fn worker_recovers_after_failures_at_boundary() {
    // Two successes before the boundary, three failed submissions in the
    // boundary slot, then successes again right after one backoff.
    let mut w = WorkerState::new(1);
    let mut actions = Vec::new();
    for ok in [true, true, false, false, false, true, true] {
        actions.push(w.record(ok));
    }
    assert_eq!(w.error_count, 3);
    assert_eq!(w.success_count, 4);
    assert_eq!(actions[4], WorkerAction::Backoff(200));
    assert_eq!(actions[5], WorkerAction::Continue);
    assert_eq!(actions[6], WorkerAction::Continue);
}

#[test]
fn worker_refuses_to_overflow() {
    let w = WorkerState { id: 0, success_count: u64::MAX - 1, error_count: 1 };
    assert!(!w.can_record());
    let w = WorkerState { id: 0, success_count: u64::MAX - 2, error_count: 1 };
    assert!(w.can_record());
}

#[test]
fn loops_stop_on_cancellation() {
    assert!(keep_running(false));
    assert!(!keep_running(true));
}

#[test]
fn monitor_records_cost_and_migration() {
    let mut d = MonitorDisplay::new();
    assert_eq!(d.units, None);
    assert!(!d.migrated);
    d.observe(SimulationOutcome { failed: false, units_consumed: Some(4645) }, false);
    assert_eq!(d, MonitorDisplay { units: Some(4645), migrated: false });
    d.observe(SimulationOutcome { failed: false, units_consumed: Some(76) }, true);
    assert_eq!(d, MonitorDisplay { units: Some(76), migrated: true });
    d.observe(SimulationOutcome { failed: false, units_consumed: None }, false);
    assert_eq!(d, MonitorDisplay { units: Some(76), migrated: true });
}

#[test]
fn monitor_keeps_stale_metric_on_failed_dry_run() {
    let mut d = MonitorDisplay::new();
    d.observe(SimulationOutcome { failed: false, units_consumed: Some(4645) }, false);
    d.observe(SimulationOutcome { failed: true, units_consumed: Some(1) }, true);
    assert_eq!(d, MonitorDisplay { units: Some(4645), migrated: false });
}

#[test]
fn slots_remaining_counts_to_boundary() {
    assert_eq!(slots_remaining(0, 50), 50);
    assert_eq!(slots_remaining(49, 50), 1);
    assert_eq!(slots_remaining(50, 50), 50);
    assert_eq!(slots_remaining(123, 50), 27);
    assert_eq!(slots_remaining(u64::MAX, 1), 1);
}

#[test]
fn epoch_poll_settles_on_last_slot() {
    assert_eq!(epoch_poll(48, 50), EpochPoll::Again);
    assert_eq!(epoch_poll(49, 50), EpochPoll::Settle);
    assert_eq!(epoch_poll(50, 50), EpochPoll::Again);
    assert_eq!(epoch_poll(99, 50), EpochPoll::Settle);
}

#[test]
fn epoch_wait_after_boundary_ends_within_an_epoch() {
    // A second wait that starts just after the boundary it already saw.
    let spe = 50;
    let mut slot = 50u64;
    let mut polls = 0;
    while epoch_poll(slot, spe) == EpochPoll::Again {
        slot += 1;
        polls += 1;
    }
    assert_eq!(slot, 99);
    assert_eq!(polls, 49);
}

#[test]
fn slot_waiter_sees_next_slot() {
    assert!(!slot_advanced(10, 10));
    assert!(slot_advanced(10, 11));
}

#[test]
fn second_interrupt_forces_exit() {
    let mut requested = false;
    let first = on_interrupt(requested);
    assert_eq!(first, InterruptAction::RequestCancel);
    requested = true;
    let second = on_interrupt(requested);
    assert_eq!(second, InterruptAction::ForceExit);
}
