//! The decisions of the monitor: what a dry run shows of the transfer's
//! cost, and when the display switches to the post-migration state.

use vstd::prelude::*;

verus! {

/// What a dry run of the transfer reported.
#[derive(Clone, Copy, Debug, PartialEq, Eq, Structural)]
pub struct SimulationOutcome {
    /// Whether execution would have failed.
    pub failed: bool,
    /// The compute units the execution consumed, where reported.
    pub units_consumed: Option<u64>,
}

/// What the monitor displays.
#[derive(Clone, Copy, Debug, PartialEq, Eq, Structural)]
pub struct MonitorDisplay {
    /// The last cost metric reported by a successful dry run.
    pub units: Option<u64>,
    /// Whether the post-migration indicator is shown.
    pub migrated: bool,
}

/// The display after one dry run, given whether the migration signal was set
/// when it was read.
pub open spec fn observe_spec(d: MonitorDisplay, outcome: SimulationOutcome, signal: bool) -> MonitorDisplay {
    if outcome.failed {
        d
    } else {
        MonitorDisplay {
            units: match outcome.units_consumed {
                Some(u) => Some(u),
                None => d.units,
            },
            migrated: d.migrated || signal,
        }
    }
}

impl MonitorDisplay {
    /// The display before any dry run: no metric, pre-migration indicator.
    pub fn new() -> (r: MonitorDisplay)
        ensures
            r.units.is_none(),
            !r.migrated,
    {
        MonitorDisplay { units: None, migrated: false }
    }

    /// Takes in one dry run. A failed one leaves the display as it was; a
    /// successful one records its metric, if any, and shows the
    /// post-migration indicator once the migration signal is set. The
    /// indicator never goes back.
    pub fn observe(&mut self, outcome: SimulationOutcome, signal: bool)
        ensures
            *final(self) == observe_spec(*old(self), outcome, signal),
            old(self).migrated ==> final(self).migrated,
            final(self).migrated ==> old(self).migrated || signal,
    {
        if !outcome.failed {
            if let Some(u) = outcome.units_consumed {
                self.units = Some(u);
            }
            if signal {
                self.migrated = true;
            }
        }
    }
}

} // verus!
