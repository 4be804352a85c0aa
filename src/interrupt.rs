//! The decision taken on each interrupt from the operating environment: the
//! first asks every task to wind down, a repeated one ends the process at
//! once.

use vstd::prelude::*;

verus! {

/// What to do on an interrupt.
#[derive(Clone, Copy, Debug, PartialEq, Eq, Structural)]
pub enum InterruptAction {
    /// Set the cancellation signal; the tasks observe it and stop.
    RequestCancel,
    /// End the process now, abandoning calls in flight.
    ForceExit,
}

/// The decision on an interrupt, given whether cancellation was already
/// requested: the first interrupt requests it, any later one forces the exit.
pub fn on_interrupt(cancel_requested: bool) -> (r: InterruptAction)
    ensures
        r == (if cancel_requested { InterruptAction::ForceExit } else { InterruptAction::RequestCancel }),
{
    if cancel_requested {
        InterruptAction::ForceExit
    } else {
        InterruptAction::RequestCancel
    }
}

} // verus!
