//! A time model for the simulated long-running operations: what each slot
//! looks like at a given instant, and the verdicts a page observes while two
//! operations of different durations run side by side.

use crate::slot::{Slot, SlotError};
use crate::verdict::{pair_verdict, VerdictModel};
use vstd::prelude::*;

verus! {

/// The outcome of a completed simulated operation: it echoes its duration
/// back as its value. The error arm of the operation's result type never
/// fires here; it exists for failures injected from outside, below this
/// model.
pub fn wait_fn(milliseconds: u64) -> (r: Result<u64, SlotError>)
    ensures
        r == Ok::<u64, SlotError>(milliseconds),
{
    Ok(milliseconds)
}

/// The observable state, `now` time units after the start, of a slot fed by
/// a simulated operation of the given duration: pending until the duration
/// has elapsed, then resolved with the duration as its value. Once started,
/// the operation always completes — there is no timeout or abort.
pub open spec fn slot_at(duration: u64, now: u64) -> Slot {
    if now >= duration {
        Slot::Resolved(Ok(duration))
    } else {
        Slot::Unresolved
    }
}

/// Sample the slot of a simulated operation at one instant.
pub fn sample_operation(duration: u64, now: u64) -> (s: Slot)
    ensures
        s == slot_at(duration, now),
{
    if now >= duration {
        match wait_fn(duration) {
            Ok(value) => Slot::Resolved(Ok(value)),
            Err(e) => Slot::Resolved(Err(e)),
        }
    } else {
        Slot::Unresolved
    }
}

/// Law: two operations of durations `d1` and `d2` started together yield
/// `Loading` at every instant before both have elapsed, and exactly
/// `Ready(d1, d2)` — in input order, never a stale or partial pair — at
/// every instant from then on.
pub proof fn lemma_pair_timeline(d1: u64, d2: u64, now: u64)
    ensures
        now < d1 || now < d2 ==> pair_verdict(slot_at(d1, now), slot_at(d2, now))
            is Loading,
        now >= d1 && now >= d2 ==> pair_verdict(slot_at(d1, now), slot_at(d2, now))
            == VerdictModel::Ready(seq![d1, d2]),
{
    if now >= d1 && now >= d2 {
        assert(seq![slot_at(d1, now).value(), slot_at(d2, now).value()] =~= seq![d1, d2]);
    }
}

} // verus!
