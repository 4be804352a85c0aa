//! The decisions of the slot and epoch waiters, which poll the ledger's slot
//! counter until a slot or an epoch boundary has been crossed.

use vstd::prelude::*;

verus! {

/// Interval between two polls of the slot counter, in milliseconds.
pub const POLL_INTERVAL_MS: u64 = 250;

/// Extra wait once the last slot before an epoch boundary is seen, in
/// milliseconds.
pub const SETTLE_MS: u64 = 500;

/// What the epoch waiter does after one poll.
#[derive(Clone, Copy, Debug, PartialEq, Eq, Structural)]
pub enum EpochPoll {
    /// Poll again after the poll interval.
    Again,
    /// The boundary is one slot away: wait the settle margin and return.
    Settle,
}

/// The slots left in the current epoch, counting the current one.
pub open spec fn slots_remaining_spec(slot: u64, slots_per_epoch: u64) -> int {
    slots_per_epoch - (slot % slots_per_epoch) as int
}

/// Whether the epoch waiter settles on a poll that read `slot`.
pub open spec fn settles(slot: u64, slots_per_epoch: u64) -> bool {
    slots_remaining_spec(slot, slots_per_epoch) == 1
}

/// The slots left in the current epoch, counting the current one.
pub fn slots_remaining(slot: u64, slots_per_epoch: u64) -> (r: u64)
    requires
        slots_per_epoch > 0,
    ensures
        r == slots_remaining_spec(slot, slots_per_epoch),
        1 <= r <= slots_per_epoch,
{
    slots_per_epoch - slot % slots_per_epoch
}

/// The epoch waiter's decision on a poll that read `slot`: it settles
/// exactly when one slot remains before the boundary.
pub fn epoch_poll(slot: u64, slots_per_epoch: u64) -> (r: EpochPoll)
    requires
        slots_per_epoch > 0,
    ensures
        (r == EpochPoll::Settle) == settles(slot, slots_per_epoch),
{
    if slots_remaining(slot, slots_per_epoch) == 1 {
        EpochPoll::Settle
    } else {
        EpochPoll::Again
    }
}

/// The slot waiter's decision: the next slot has come exactly when the slot
/// read differs from the one seen when the wait began.
pub fn slot_advanced(start_slot: u64, slot: u64) -> (r: bool)
    ensures
        r == (slot != start_slot),
{
    slot != start_slot
}

/// The epoch waiter returns from any starting slot, also one read after a
/// boundary has already passed: the slots it reads settle no later than the
/// last slot of the epoch that holds the start, which is at most
/// `slots_per_epoch - 1` slots away, and no earlier slot settles.
pub proof fn lemma_epoch_wait_ends(slot: u64, slots_per_epoch: u64)
    requires
        slots_per_epoch > 0,
        slot + slots_per_epoch <= u64::MAX,
    ensures
        ({
            let k = slots_remaining_spec(slot, slots_per_epoch) - 1;
            &&& 0 <= k < slots_per_epoch
            &&& settles((slot + k) as u64, slots_per_epoch)
            &&& (slot + k + 1) % (slots_per_epoch as int) == 0
            &&& forall|t: u64| slot <= t < slot + k ==> !#[trigger] settles(t, slots_per_epoch)
        }),
{
    let n = slots_per_epoch as int;
    let s = slot as int;
    let r = s % n;
    let q = s / n;
    let k = n - r - 1;
    vstd::arithmetic::div_mod::lemma_fundamental_div_mod(s, n);
    assert(0 <= r < n);
    assert(s + k + 1 == (q + 1) * n) by (nonlinear_arith)
        requires
            s == q * n + r,
            k == n - r - 1,
    ;
    vstd::arithmetic::div_mod::lemma_mod_multiples_basic(q + 1, n);
    assert((s + k) % n == n - 1) by {
        vstd::arithmetic::div_mod::lemma_fundamental_div_mod_converse(s + k, n, q, n - 1);
    }
    assert forall|t: u64| slot <= t < slot + k implies !#[trigger] settles(t, slots_per_epoch) by {
        vstd::arithmetic::div_mod::lemma_fundamental_div_mod_converse(t as int, n, q, r + (t - s));
    }
}

} // verus!
