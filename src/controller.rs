//! The migration controller as a state machine. Each call of
//! [`Controller::step`] takes the outcome of the previous action and names
//! the next one; the caller performs the actions (provisioning the
//! accounts the tasks contend on, reading the owner of the program account,
//! spawning tasks, sleeping, submitting the trigger,
//! waiting for the epoch boundary, setting the migration signal).

use vstd::prelude::*;
use crate::address::Address;

verus! {

/// The parameters of one run.
#[derive(Clone, Copy, Debug)]
pub struct RunConfig {
    /// Number of workers to spawn.
    pub concurrency: u64,
    /// Hold between spawning the tasks and submitting the trigger, in milliseconds.
    pub arm_delay_ms: u64,
    /// Interval between two checks of the cancellation signal while idle, in milliseconds.
    pub idle_poll_ms: u64,
    /// Whether the ledger starts fresh, so that the program must still be
    /// owned by the pre-migration implementation; otherwise the run resumes an
    /// existing ledger that may already be migrated.
    pub fresh_ledger: bool,
    /// Owner of the program account before the migration.
    pub original_owner: Address,
    /// Owner of the program account after the migration.
    pub upgraded_owner: Address,
}

/// Where the controller stands: each phase waits for the outcome of one action.
#[derive(Clone, Copy, Debug, PartialEq, Eq, Structural)]
pub enum Phase {
    AwaitProvisioned,
    AwaitStartOwner,
    AwaitSpawned,
    AwaitArmed,
    AwaitTrigger,
    AwaitBoundary,
    AwaitFinalOwner,
    AwaitPublished,
    AwaitCancelCheck,
    AwaitIdleSleep,
    Finished,
    Aborted,
}

/// The outcome of the action last asked for.
#[derive(Clone, Copy, Debug, PartialEq, Eq)]
pub enum Event {
    /// The provisioning transaction was confirmed.
    Provisioned,
    /// The provisioning transaction was rejected.
    ProvisioningRejected,
    /// The owner of the program account was read.
    OwnerObserved(Address),
    /// The program account could not be read.
    OwnerUnavailable,
    /// The workers and the monitor were spawned.
    TasksSpawned,
    /// A requested sleep has elapsed.
    Slept,
    /// The migration trigger was confirmed by the ledger.
    TriggerConfirmed,
    /// The migration trigger was rejected.
    TriggerRejected,
    /// The ledger crossed the next epoch boundary.
    BoundaryReached,
    /// The migration signal was set.
    Published,
    /// The cancellation signal was read, with the value given.
    CancelChecked(bool),
}

/// Why a run ends early.
#[derive(Clone, Copy, Debug, PartialEq, Eq)]
pub enum Fatal {
    /// The provisioning transaction was rejected.
    ProvisioningRejected,
    /// The program was not owned by the pre-migration implementation at the start.
    StartOwnerMismatch { expected: Address, observed: Address },
    /// The program was not owned by the new implementation after the boundary.
    FinalOwnerMismatch { expected: Address, observed: Address },
    /// The program account could not be read.
    OwnerUnavailable,
    /// The migration trigger was rejected.
    TriggerRejected,
    /// An outcome arrived that the current phase does not wait for.
    UnexpectedEvent,
}

/// What the caller does next.
#[derive(Clone, Copy, Debug, PartialEq, Eq)]
pub enum Action {
    /// Provision the mint and the two holder accounts, in one transaction.
    Provision,
    /// Read the owner of the program account.
    ReadOwner,
    /// Spawn the workers and the monitor, with a migration signal that starts
    /// with the value given.
    Spawn { workers: u64, signal: bool },
    /// Sleep for the given number of milliseconds.
    Sleep(u64),
    /// Submit the migration trigger.
    SubmitTrigger,
    /// Wait until the ledger crosses the next epoch boundary.
    WaitForEpoch,
    /// Set the migration signal.
    PublishMigrated,
    /// Read the cancellation signal.
    CheckCancel,
    /// The run is over: shut down.
    Shutdown,
    /// The run failed: end it with the reason given.
    Abort(Fatal),
    /// The run has already ended: nothing to do.
    Halt,
}

/// The controller's state.
#[derive(Clone, Copy, Debug)]
pub struct Controller {
    pub config: RunConfig,
    pub phase: Phase,
    /// The value of the migration signal, from the moment the tasks that read
    /// it are spawned.
    pub signal: Option<bool>,
}

pub open spec fn goto(c: Controller, phase: Phase, action: Action) -> (Controller, Action) {
    (Controller { phase, ..c }, action)
}

pub open spec fn abort(c: Controller, f: Fatal) -> (Controller, Action) {
    goto(c, Phase::Aborted, Action::Abort(f))
}

/// The transition: the next state and action after `event` in state `c`.
pub open spec fn next(c: Controller, event: Event) -> (Controller, Action) {
    let cfg = c.config;
    match c.phase {
        Phase::Finished | Phase::Aborted => (c, Action::Halt),
        Phase::AwaitProvisioned => match event {
            Event::Provisioned => goto(c, Phase::AwaitStartOwner, Action::ReadOwner),
            Event::ProvisioningRejected => abort(c, Fatal::ProvisioningRejected),
            _ => abort(c, Fatal::UnexpectedEvent),
        },
        Phase::AwaitStartOwner => match event {
            Event::OwnerObserved(o) => {
                if cfg.fresh_ledger {
                    if o == cfg.original_owner {
                        (
                            Controller { phase: Phase::AwaitSpawned, signal: Some(false), ..c },
                            Action::Spawn { workers: cfg.concurrency, signal: false },
                        )
                    } else {
                        abort(c, Fatal::StartOwnerMismatch { expected: cfg.original_owner, observed: o })
                    }
                } else {
                    let up = o == cfg.upgraded_owner;
                    (
                        Controller { phase: Phase::AwaitSpawned, signal: Some(up), ..c },
                        Action::Spawn { workers: cfg.concurrency, signal: up },
                    )
                }
            },
            Event::OwnerUnavailable => abort(c, Fatal::OwnerUnavailable),
            _ => abort(c, Fatal::UnexpectedEvent),
        },
        Phase::AwaitSpawned => match event {
            Event::TasksSpawned => {
                if c.signal == Some(true) {
                    goto(c, Phase::AwaitCancelCheck, Action::CheckCancel)
                } else {
                    goto(c, Phase::AwaitArmed, Action::Sleep(cfg.arm_delay_ms))
                }
            },
            _ => abort(c, Fatal::UnexpectedEvent),
        },
        Phase::AwaitArmed => match event {
            Event::Slept => goto(c, Phase::AwaitTrigger, Action::SubmitTrigger),
            _ => abort(c, Fatal::UnexpectedEvent),
        },
        Phase::AwaitTrigger => match event {
            Event::TriggerConfirmed => goto(c, Phase::AwaitBoundary, Action::WaitForEpoch),
            Event::TriggerRejected => abort(c, Fatal::TriggerRejected),
            _ => abort(c, Fatal::UnexpectedEvent),
        },
        Phase::AwaitBoundary => match event {
            Event::BoundaryReached => goto(c, Phase::AwaitFinalOwner, Action::ReadOwner),
            _ => abort(c, Fatal::UnexpectedEvent),
        },
        Phase::AwaitFinalOwner => match event {
            Event::OwnerObserved(o) => {
                if o == cfg.upgraded_owner {
                    (
                        Controller { phase: Phase::AwaitPublished, signal: Some(true), ..c },
                        Action::PublishMigrated,
                    )
                } else {
                    abort(c, Fatal::FinalOwnerMismatch { expected: cfg.upgraded_owner, observed: o })
                }
            },
            Event::OwnerUnavailable => abort(c, Fatal::OwnerUnavailable),
            _ => abort(c, Fatal::UnexpectedEvent),
        },
        Phase::AwaitPublished => match event {
            Event::Published => goto(c, Phase::AwaitCancelCheck, Action::CheckCancel),
            _ => abort(c, Fatal::UnexpectedEvent),
        },
        Phase::AwaitCancelCheck => match event {
            Event::CancelChecked(true) => goto(c, Phase::Finished, Action::Shutdown),
            Event::CancelChecked(false) => goto(c, Phase::AwaitIdleSleep, Action::Sleep(cfg.idle_poll_ms)),
            _ => abort(c, Fatal::UnexpectedEvent),
        },
        Phase::AwaitIdleSleep => match event {
            Event::Slept => goto(c, Phase::AwaitCancelCheck, Action::CheckCancel),
            _ => abort(c, Fatal::UnexpectedEvent),
        },
    }
}

/// The state a run starts in.
pub open spec fn initial(config: RunConfig) -> Controller {
    Controller { config, phase: Phase::AwaitProvisioned, signal: None }
}

/// The states a run passes through: `c`, then the state after each event in turn.
pub open spec fn run(c: Controller, events: Seq<Event>) -> Seq<Controller>
    decreases events.len(),
{
    if events.len() == 0 {
        seq![c]
    } else {
        seq![c] + run(next(c, events[0]).0, events.drop_first())
    }
}

/// The actions a run asks for, one after each event.
pub open spec fn run_actions(c: Controller, events: Seq<Event>) -> Seq<Action>
    decreases events.len(),
{
    if events.len() == 0 {
        Seq::empty()
    } else {
        seq![next(c, events[0]).1] + run_actions(next(c, events[0]).0, events.drop_first())
    }
}

/// The shape of every state a run reaches: the signal does not exist until
/// the starting-state check has been passed.
pub open spec fn well_formed(c: Controller) -> bool {
    (c.phase == Phase::AwaitProvisioned || c.phase == Phase::AwaitStartOwner) ==> c.signal is None
}

/// Whether the migration signal goes from unset to set between two states.
pub open spec fn signal_raised(before: Controller, after: Controller) -> bool {
    before.signal == Some(false) && after.signal == Some(true)
}

/// The starting-state check: tasks are spawned only from the starting
/// phase, and on a fresh ledger only after the program was seen owned by the
/// pre-migration implementation; any other owner ends such a run with that
/// owner and the expected one.
pub proof fn lemma_start_owner_checked(c: Controller, e: Event)
    ensures
        next(c, e).1 is Spawn ==> c.phase == Phase::AwaitStartOwner,
        next(c, e).1 is Spawn && c.config.fresh_ledger ==> e == Event::OwnerObserved(c.config.original_owner)
            && next(c, e).0.signal == Some(false),
        c.phase == Phase::AwaitStartOwner && c.config.fresh_ledger ==> (e matches Event::OwnerObserved(o) ==> (
        o != c.config.original_owner ==> next(c, e).1 == Action::Abort(
            Fatal::StartOwnerMismatch { expected: c.config.original_owner, observed: o },
        ))),
{
}

/// Provisioning comes first and is fatal on rejection: the run reads the
/// owner only after the provisioning was confirmed.
pub proof fn lemma_provisioning_checked(c: Controller, e: Event)
    requires
        c.phase == Phase::AwaitProvisioned,
    ensures
        (next(c, e).1 == Action::ReadOwner) <==> e == Event::Provisioned,
        e == Event::ProvisioningRejected ==> next(c, e).1 == Action::Abort(Fatal::ProvisioningRejected)
            && next(c, e).0.phase == Phase::Aborted,
{
}

/// The post-boundary check: the run goes on past the epoch boundary exactly
/// when the program is seen owned by the new implementation, and only then
/// is the migration signal set; any other outcome ends the run.
pub proof fn lemma_final_owner_checked(c: Controller, e: Event)
    requires
        c.phase == Phase::AwaitFinalOwner,
    ensures
        (next(c, e).1 == Action::PublishMigrated) <==> e == Event::OwnerObserved(c.config.upgraded_owner),
        next(c, e).1 != Action::PublishMigrated ==> next(c, e).0.phase == Phase::Aborted,
        e matches Event::OwnerObserved(o) ==> (o != c.config.upgraded_owner ==> next(c, e).1
            == Action::Abort(Fatal::FinalOwnerMismatch { expected: c.config.upgraded_owner, observed: o })),
{
}

/// One step of the controller never unsets the migration signal, keeps the
/// run's parameters, and sets the signal only on the post-boundary check
/// that saw the new owner.
pub proof fn lemma_signal_step(c: Controller, e: Event)
    requires
        well_formed(c),
    ensures
        well_formed(next(c, e).0),
        c.signal == Some(true) ==> next(c, e).0.signal == Some(true),
        c.signal is Some ==> next(c, e).0.signal is Some,
        next(c, e).0.config == c.config,
        signal_raised(c, next(c, e).0) ==> c.phase == Phase::AwaitFinalOwner && e
            == Event::OwnerObserved(c.config.upgraded_owner),
        signal_raised(c, next(c, e).0) ==> next(c, e).1 == Action::PublishMigrated,
{
}

/// The states of a run follow one another by the transition.
pub proof fn lemma_run_steps(c: Controller, events: Seq<Event>)
    ensures
        run(c, events).len() == events.len() + 1,
        run(c, events)[0] == c,
        forall|i: int|
            0 <= i < events.len() ==> #[trigger] run(c, events)[i + 1] == next(run(c, events)[i], events[i]).0,
    decreases events.len(),
{
    if events.len() > 0 {
        let rest = events.drop_first();
        let c1 = next(c, events[0]).0;
        lemma_run_steps(c1, rest);
        assert forall|i: int| 0 <= i < events.len() implies #[trigger] run(c, events)[i + 1] == next(
            run(c, events)[i],
            events[i],
        ).0 by {
            if i > 0 {
                assert(run(c, events)[i + 1] == run(c1, rest)[i]);
                assert(run(c, events)[i] == run(c1, rest)[i - 1]);
                assert(events[i] == rest[i - 1]);
            }
        }
    }
}

/// Monotonic transition: along any run, once the migration signal is set it
/// stays set, and the run's parameters never change.
pub proof fn lemma_signal_monotone(c: Controller, events: Seq<Event>)
    requires
        well_formed(c),
    ensures
        forall|i: int, j: int|
            0 <= i <= j <= events.len() && (#[trigger] run(c, events)[i]).signal == Some(true) ==> (
            #[trigger] run(c, events)[j]).signal == Some(true),
        forall|i: int| 0 <= i <= events.len() ==> (#[trigger] run(c, events)[i]).config == c.config,
{
    lemma_run_steps(c, events);
    let r = run(c, events);
    assert forall|i: int| 0 <= i <= events.len() implies (#[trigger] r[i]).config == c.config by {
        lemma_prefix_config(c, events, i);
    }
    assert forall|i: int, j: int|
        0 <= i <= j <= events.len() && (#[trigger] r[i]).signal == Some(true) implies (
        #[trigger] r[j]).signal == Some(true) by {
        lemma_prefix_signal(c, events, i, j);
    }
}

proof fn lemma_prefix_config(c: Controller, events: Seq<Event>, i: int)
    requires
        0 <= i <= events.len(),
    ensures
        run(c, events)[i].config == c.config,
    decreases i,
{
    lemma_run_steps(c, events);
    if i > 0 {
        lemma_prefix_config(c, events, i - 1);
        lemma_next_config(run(c, events)[i - 1], events[i - 1]);
        assert(run(c, events)[(i - 1) + 1] == next(run(c, events)[i - 1], events[i - 1]).0);
    }
}

proof fn lemma_next_config(c: Controller, e: Event)
    ensures
        next(c, e).0.config == c.config,
{
}

proof fn lemma_prefix_well_formed(c: Controller, events: Seq<Event>, i: int)
    requires
        well_formed(c),
        0 <= i <= events.len(),
    ensures
        well_formed(run(c, events)[i]),
    decreases i,
{
    lemma_run_steps(c, events);
    if i > 0 {
        lemma_prefix_well_formed(c, events, i - 1);
        lemma_signal_step(run(c, events)[i - 1], events[i - 1]);
        assert(run(c, events)[(i - 1) + 1] == next(run(c, events)[i - 1], events[i - 1]).0);
    }
}

proof fn lemma_prefix_signal(c: Controller, events: Seq<Event>, i: int, j: int)
    requires
        well_formed(c),
        0 <= i <= j <= events.len(),
        run(c, events)[i].signal == Some(true),
    ensures
        run(c, events)[j].signal == Some(true),
    decreases j - i,
{
    lemma_run_steps(c, events);
    if j > i {
        lemma_prefix_signal(c, events, i, j - 1);
        lemma_prefix_well_formed(c, events, j - 1);
        lemma_signal_step(run(c, events)[j - 1], events[j - 1]);
        assert(run(c, events)[(j - 1) + 1] == next(run(c, events)[j - 1], events[j - 1]).0);
    }
}

/// Causal ordering: along any run, the migration signal goes from unset to
/// set at most once, and only on the step where the controller's own
/// post-boundary check saw the program owned by the new implementation.
pub proof fn lemma_signal_raised_once(c: Controller, events: Seq<Event>)
    requires
        well_formed(c),
    ensures
        forall|i: int|
            0 <= i < events.len() && signal_raised(#[trigger] run(c, events)[i], run(c, events)[i + 1])
                ==> run(c, events)[i].phase == Phase::AwaitFinalOwner && events[i]
                == Event::OwnerObserved(c.config.upgraded_owner),
        forall|i: int, j: int|
            0 <= i < j < events.len() && signal_raised(#[trigger] run(c, events)[i], run(c, events)[i + 1])
                ==> !signal_raised(#[trigger] run(c, events)[j], run(c, events)[j + 1]),
{
    lemma_run_steps(c, events);
    lemma_signal_monotone(c, events);
    let r = run(c, events);
    assert forall|i: int|
        0 <= i < events.len() && signal_raised(#[trigger] r[i], r[i + 1]) implies r[i].phase
        == Phase::AwaitFinalOwner && events[i] == Event::OwnerObserved(c.config.upgraded_owner) by {
        lemma_prefix_well_formed(c, events, i);
        lemma_signal_step(r[i], events[i]);
    }
    assert forall|i: int, j: int|
        0 <= i < j < events.len() && signal_raised(#[trigger] r[i], r[i + 1]) implies !signal_raised(
        #[trigger] r[j],
        r[j + 1],
    ) by {
        assert(r[i + 1].signal == Some(true));
        assert(r[j].signal == Some(true));
    }
}

/// The actions of a run follow the states by the transition.
pub proof fn lemma_run_actions(c: Controller, events: Seq<Event>)
    ensures
        run_actions(c, events).len() == events.len(),
        forall|i: int|
            0 <= i < events.len() ==> #[trigger] run_actions(c, events)[i] == next(run(c, events)[i], events[i]).1,
    decreases events.len(),
{
    if events.len() > 0 {
        let rest = events.drop_first();
        let c1 = next(c, events[0]).0;
        lemma_run_actions(c1, rest);
        lemma_run_steps(c1, rest);
        assert forall|i: int| 0 <= i < events.len() implies #[trigger] run_actions(c, events)[i] == next(
            run(c, events)[i],
            events[i],
        ).1 by {
            if i > 0 {
                assert(run_actions(c, events)[i] == run_actions(c1, rest)[i - 1]);
                assert(run(c, events)[i] == run(c1, rest)[i - 1]);
                assert(events[i] == rest[i - 1]);
            }
        }
    }
}

proof fn lemma_setup_phases(config: RunConfig, events: Seq<Event>, i: int)
    requires
        0 <= i <= events.len(),
    ensures
        run(initial(config), events)[i].phase == Phase::AwaitProvisioned ==> i == 0,
        run(initial(config), events)[i].phase == Phase::AwaitStartOwner ==> i == 1 && events[0]
            == Event::Provisioned,
    decreases i,
{
    lemma_run_steps(initial(config), events);
    if i > 0 {
        lemma_setup_phases(config, events, i - 1);
        assert(run(initial(config), events)[(i - 1) + 1] == next(run(initial(config), events)[i - 1], events[i - 1]).0);
    }
}

/// Order of every run on a fresh ledger: the tasks are spawned at most
/// once, on the run's second step, only after the accounts were provisioned
/// and then the program was seen owned by the pre-migration implementation.
pub proof fn lemma_spawn_after_start_check(config: RunConfig, events: Seq<Event>)
    requires
        config.fresh_ledger,
    ensures
        forall|i: int|
            0 <= i < events.len() && #[trigger] run_actions(initial(config), events)[i] is Spawn ==> i == 1
                && events[0] == Event::Provisioned && events[1] == Event::OwnerObserved(config.original_owner),
{
    let c = initial(config);
    lemma_run_steps(c, events);
    lemma_run_actions(c, events);
    assert forall|i: int|
        0 <= i < events.len() && #[trigger] run_actions(c, events)[i] is Spawn implies i == 1 && events[0]
        == Event::Provisioned && events[1] == Event::OwnerObserved(config.original_owner) by {
        lemma_start_owner_checked(run(c, events)[i], events[i]);
        lemma_setup_phases(config, events, i);
    }
}

impl Controller {
    /// A controller for a run with the given parameters, and its first
    /// action: provision the accounts.
    pub fn start(config: RunConfig) -> (r: (Controller, Action))
        ensures
            r.0 == initial(config),
            well_formed(r.0),
            r.1 == Action::Provision,
    {
        (Controller { config, phase: Phase::AwaitProvisioned, signal: None }, Action::Provision)
    }

    /// Takes the outcome of the last action and returns the next one.
    pub fn step(&mut self, event: Event) -> (action: Action)
        ensures
            (*final(self), action) == next(*old(self), event),
    {
        let cfg = self.config;
        let phase = self.phase;
        match phase {
            Phase::Finished | Phase::Aborted => Action::Halt,
            Phase::AwaitProvisioned => match event {
                Event::Provisioned => {
                    self.phase = Phase::AwaitStartOwner;
                    Action::ReadOwner
                },
                Event::ProvisioningRejected => self.fail(Fatal::ProvisioningRejected),
                _ => self.fail(Fatal::UnexpectedEvent),
            },
            Phase::AwaitStartOwner => match event {
                Event::OwnerObserved(o) => {
                    if cfg.fresh_ledger {
                        if o == cfg.original_owner {
                            self.phase = Phase::AwaitSpawned;
                            self.signal = Some(false);
                            Action::Spawn { workers: cfg.concurrency, signal: false }
                        } else {
                            self.fail(Fatal::StartOwnerMismatch { expected: cfg.original_owner, observed: o })
                        }
                    } else {
                        let up = o == cfg.upgraded_owner;
                        self.phase = Phase::AwaitSpawned;
                        self.signal = Some(up);
                        Action::Spawn { workers: cfg.concurrency, signal: up }
                    }
                },
                Event::OwnerUnavailable => self.fail(Fatal::OwnerUnavailable),
                _ => self.fail(Fatal::UnexpectedEvent),
            },
            Phase::AwaitSpawned => match event {
                Event::TasksSpawned => {
                    if self.signal == Some(true) {
                        self.phase = Phase::AwaitCancelCheck;
                        Action::CheckCancel
                    } else {
                        self.phase = Phase::AwaitArmed;
                        Action::Sleep(cfg.arm_delay_ms)
                    }
                },
                _ => self.fail(Fatal::UnexpectedEvent),
            },
            Phase::AwaitArmed => match event {
                Event::Slept => {
                    self.phase = Phase::AwaitTrigger;
                    Action::SubmitTrigger
                },
                _ => self.fail(Fatal::UnexpectedEvent),
            },
            Phase::AwaitTrigger => match event {
                Event::TriggerConfirmed => {
                    self.phase = Phase::AwaitBoundary;
                    Action::WaitForEpoch
                },
                Event::TriggerRejected => self.fail(Fatal::TriggerRejected),
                _ => self.fail(Fatal::UnexpectedEvent),
            },
            Phase::AwaitBoundary => match event {
                Event::BoundaryReached => {
                    self.phase = Phase::AwaitFinalOwner;
                    Action::ReadOwner
                },
                _ => self.fail(Fatal::UnexpectedEvent),
            },
            Phase::AwaitFinalOwner => match event {
                Event::OwnerObserved(o) => {
                    if o == cfg.upgraded_owner {
                        self.phase = Phase::AwaitPublished;
                        self.signal = Some(true);
                        Action::PublishMigrated
                    } else {
                        self.fail(Fatal::FinalOwnerMismatch { expected: cfg.upgraded_owner, observed: o })
                    }
                },
                Event::OwnerUnavailable => self.fail(Fatal::OwnerUnavailable),
                _ => self.fail(Fatal::UnexpectedEvent),
            },
            Phase::AwaitPublished => match event {
                Event::Published => {
                    self.phase = Phase::AwaitCancelCheck;
                    Action::CheckCancel
                },
                _ => self.fail(Fatal::UnexpectedEvent),
            },
            Phase::AwaitCancelCheck => match event {
                Event::CancelChecked(cancelled) => {
                    if cancelled {
                        self.phase = Phase::Finished;
                        Action::Shutdown
                    } else {
                        self.phase = Phase::AwaitIdleSleep;
                        Action::Sleep(cfg.idle_poll_ms)
                    }
                },
                _ => self.fail(Fatal::UnexpectedEvent),
            },
            Phase::AwaitIdleSleep => match event {
                Event::Slept => {
                    self.phase = Phase::AwaitCancelCheck;
                    Action::CheckCancel
                },
                _ => self.fail(Fatal::UnexpectedEvent),
            },
        }
    }

    fn fail(&mut self, f: Fatal) -> (action: Action)
        ensures
            (*final(self), action) == abort(*old(self), f),
    {
        self.phase = Phase::Aborted;
        Action::Abort(f)
    }
}

} // verus!
