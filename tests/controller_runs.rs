use cbmt_harness::address::Address;
use cbmt_harness::controller::{Action, Controller, Event, Fatal, Phase, RunConfig};
use cbmt_harness::waiter::{epoch_poll, EpochPoll};
use cbmt_harness::worker::WorkerState;

fn key(b: u8) -> Address {
    Address::from_bytes([b; 32])
}

fn config(fresh: bool) -> RunConfig {
    RunConfig {
        concurrency: 1,
        arm_delay_ms: 10,
        idle_poll_ms: 5000,
        fresh_ledger: fresh,
        original_owner: key(2),
        upgraded_owner: key(3),
    }
}

#[test]
fn fresh_run_goes_through_every_phase() {
    let (mut c, first) = Controller::start(config(true));
    assert_eq!(first, Action::Provision);
    assert_eq!(c.signal, None);
    assert_eq!(c.step(Event::Provisioned), Action::ReadOwner);
    assert_eq!(c.step(Event::OwnerObserved(key(2))), Action::Spawn { workers: 1, signal: false });
    assert_eq!(c.signal, Some(false));
    assert_eq!(c.step(Event::TasksSpawned), Action::Sleep(10));
    assert_eq!(c.step(Event::Slept), Action::SubmitTrigger);
    assert_eq!(c.step(Event::TriggerConfirmed), Action::WaitForEpoch);
    assert_eq!(c.step(Event::BoundaryReached), Action::ReadOwner);
    assert_eq!(c.signal, Some(false));
    assert_eq!(c.step(Event::OwnerObserved(key(3))), Action::PublishMigrated);
    assert_eq!(c.signal, Some(true));
    assert_eq!(c.step(Event::Published), Action::CheckCancel);
    assert_eq!(c.step(Event::CancelChecked(false)), Action::Sleep(5000));
    assert_eq!(c.step(Event::Slept), Action::CheckCancel);
    assert_eq!(c.step(Event::CancelChecked(true)), Action::Shutdown);
    assert_eq!(c.phase, Phase::Finished);
    assert_eq!(c.signal, Some(true));
    assert_eq!(c.step(Event::Slept), Action::Halt);
}

#[test]
fn fresh_run_aborts_on_wrong_starting_owner() {
    let (mut c, _) = Controller::start(config(true));
    c.step(Event::Provisioned);
    let a = c.step(Event::OwnerObserved(key(3)));
    assert_eq!(a, Action::Abort(Fatal::StartOwnerMismatch { expected: key(2), observed: key(3) }));
    assert_eq!(c.phase, Phase::Aborted);
    assert_eq!(c.signal, None);
}

#[test]
fn run_aborts_when_migration_did_not_take_effect() {
    let (mut c, _) = Controller::start(config(true));
    c.step(Event::Provisioned);
    c.step(Event::OwnerObserved(key(2)));
    c.step(Event::TasksSpawned);
    c.step(Event::Slept);
    c.step(Event::TriggerConfirmed);
    c.step(Event::BoundaryReached);
    let a = c.step(Event::OwnerObserved(key(2)));
    assert_eq!(a, Action::Abort(Fatal::FinalOwnerMismatch { expected: key(3), observed: key(2) }));
    assert_eq!(c.signal, Some(false));
}

#[test]
fn run_aborts_on_rejected_trigger() {
    let (mut c, _) = Controller::start(config(true));
    c.step(Event::Provisioned);
    c.step(Event::OwnerObserved(key(2)));
    c.step(Event::TasksSpawned);
    c.step(Event::Slept);
    assert_eq!(c.step(Event::TriggerRejected), Action::Abort(Fatal::TriggerRejected));
    assert_eq!(c.step(Event::TriggerConfirmed), Action::Halt);
}

#[test]
fn run_aborts_on_unreadable_owner() {
    let (mut c, _) = Controller::start(config(true));
    c.step(Event::Provisioned);
    assert_eq!(c.step(Event::OwnerUnavailable), Action::Abort(Fatal::OwnerUnavailable));
}

#[test]
fn run_aborts_on_unexpected_event() {
    let (mut c, _) = Controller::start(config(true));
    assert_eq!(c.step(Event::BoundaryReached), Action::Abort(Fatal::UnexpectedEvent));
    assert_eq!(c.phase, Phase::Aborted);
}

#[test]
fn resumed_migrated_ledger_goes_idle() {
    let (mut c, _) = Controller::start(config(false));
    assert_eq!(c.step(Event::Provisioned), Action::ReadOwner);
    assert_eq!(c.step(Event::OwnerObserved(key(3))), Action::Spawn { workers: 1, signal: true });
    assert_eq!(c.step(Event::TasksSpawned), Action::CheckCancel);
    assert_eq!(c.step(Event::CancelChecked(true)), Action::Shutdown);
}

#[test]
fn resumed_unmigrated_ledger_still_triggers() {
    let (mut c, _) = Controller::start(config(false));
    assert_eq!(c.step(Event::Provisioned), Action::ReadOwner);
    assert_eq!(c.step(Event::OwnerObserved(key(9))), Action::Spawn { workers: 1, signal: false });
    assert_eq!(c.step(Event::TasksSpawned), Action::Sleep(10));
}

#[test]
fn address_equality_compares_all_bytes() {
    let mut b = [5u8; 32];
    let a = Address::from_bytes(b);
    b[31] = 6;
    assert!(a != Address::from_bytes(b));
    assert!(a == Address::from_bytes([5u8; 32]));
    assert_eq!(a.to_bytes(), [5u8; 32]);
}

#[test]
fn single_worker_transfers_before_trigger_and_after_boundary() {
    // One worker, an arm delay of 10, epochs of 50 slots.
    let (mut c, _) = Controller::start(config(true));
    let mut worker = WorkerState::new(1);
    assert_eq!(c.step(Event::Provisioned), Action::ReadOwner);
    assert_eq!(c.step(Event::OwnerObserved(key(2))), Action::Spawn { workers: 1, signal: false });
    assert_eq!(c.step(Event::TasksSpawned), Action::Sleep(10));
    // The worker runs during the arm delay.
    worker.record(true);
    let before_trigger = worker.success_count;
    assert_eq!(c.step(Event::Slept), Action::SubmitTrigger);
    assert_eq!(c.step(Event::TriggerConfirmed), Action::WaitForEpoch);
    // The waiter polls from slot 37 until the last slot of the epoch.
    let mut slot = 37u64;
    while epoch_poll(slot, 50) == EpochPoll::Again {
        worker.record(true);
        slot += 1;
    }
    assert_eq!(slot, 49);
    // The boundary slot itself sees a failed submission.
    worker.record(false);
    assert_eq!(c.step(Event::BoundaryReached), Action::ReadOwner);
    assert_eq!(c.step(Event::OwnerObserved(key(3))), Action::PublishMigrated);
    let at_boundary = worker.success_count;
    worker.record(true);
    assert!(before_trigger >= 1);
    assert!(worker.success_count > at_boundary);
    assert_eq!(worker.error_count, 1);
    assert_eq!(c.phase, Phase::AwaitPublished);
}

#[test]
fn rejected_provisioning_ends_the_run() {
    let (mut c, first) = Controller::start(config(true));
    assert_eq!(first, Action::Provision);
    assert_eq!(c.step(Event::ProvisioningRejected), Action::Abort(Fatal::ProvisioningRejected));
    assert_eq!(c.phase, Phase::Aborted);
    assert_eq!(c.signal, None);
}

#[test]
fn owner_is_read_only_after_provisioning() {
    let (mut c, _) = Controller::start(config(true));
    assert_eq!(c.step(Event::OwnerObserved(key(2))), Action::Abort(Fatal::UnexpectedEvent));
}
