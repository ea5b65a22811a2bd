//! The combined verdict over a collection of slots, its mathematical model,
//! and the precedence laws the combination obeys.

use crate::slot::Slot;
use vstd::prelude::*;

verus! {

/// The single verdict derived from all slots: `Loading` while any slot is
/// pending, else `Failed` if any slot resolved with an error, else `Ready`
/// with every value in input order.
#[derive(Clone, Debug, PartialEq, Eq)]
pub enum Verdict {
    Loading,
    Failed,
    Ready(Vec<u64>),
}

/// A verdict in specification form: `Ready` carries the values as a sequence.
pub enum VerdictModel {
    Loading,
    Failed,
    Ready(Seq<u64>),
}

impl View for Verdict {
    type V = VerdictModel;

    open spec fn view(&self) -> VerdictModel {
        match self {
            Verdict::Loading => VerdictModel::Loading,
            Verdict::Failed => VerdictModel::Failed,
            Verdict::Ready(values) => VerdictModel::Ready(values@),
        }
    }
}

/// Some slot is still pending.
pub open spec fn any_unresolved(slots: Seq<Slot>) -> bool {
    exists|i: int| 0 <= i < slots.len() && slots[i].is_unresolved()
}

/// Some slot resolved with an error.
pub open spec fn any_failed(slots: Seq<Slot>) -> bool {
    exists|i: int| 0 <= i < slots.len() && slots[i].is_err()
}

/// The carried values of the slots, in input order. Meaningful when every
/// slot resolved successfully.
pub open spec fn ok_values(slots: Seq<Slot>) -> Seq<u64> {
    Seq::new(slots.len(), |i: int| slots[i].value())
}

/// The precedence table over any number of slots: a pending slot wins over
/// everything, a failure wins over readiness, and only a fully successful
/// collection is `Ready`.
pub open spec fn combined_verdict(slots: Seq<Slot>) -> VerdictModel {
    if any_unresolved(slots) {
        VerdictModel::Loading
    } else if any_failed(slots) {
        VerdictModel::Failed
    } else {
        VerdictModel::Ready(ok_values(slots))
    }
}

/// The precedence table written out for a pair of slots, the shape the page
/// component consumes.
pub open spec fn pair_verdict(first: Slot, second: Slot) -> VerdictModel {
    if first.is_unresolved() || second.is_unresolved() {
        VerdictModel::Loading
    } else if first.is_err() || second.is_err() {
        VerdictModel::Failed
    } else {
        VerdictModel::Ready(seq![first.value(), second.value()])
    }
}

/// Law: over every pair of slot states the combined verdict equals the
/// precedence table — `Loading` wins over `Failed`, which wins over `Ready`,
/// and a `Ready` verdict carries both values in input order.
pub proof fn lemma_pair_precedence(first: Slot, second: Slot)
    ensures
        combined_verdict(seq![first, second]) == pair_verdict(first, second),
{
    let slots = seq![first, second];
    assert(slots[0] == first);
    assert(slots[1] == second);
    if first.is_unresolved() || second.is_unresolved() {
        assert(any_unresolved(slots));
    } else {
        assert(forall|i: int| 0 <= i < slots.len() ==> !slots[i].is_unresolved());
        assert(!any_unresolved(slots));
        if first.is_err() || second.is_err() {
            assert(any_failed(slots));
        } else {
            assert(!any_failed(slots));
            assert(ok_values(slots) =~= seq![first.value(), second.value()]);
        }
    }
}

/// Law: a failed slot can never be outvoted into readiness — whenever some
/// slot resolved with an error, the combined verdict is not `Ready`,
/// whichever states the remaining slots are in.
pub proof fn lemma_error_never_ready(slots: Seq<Slot>, i: int)
    requires
        0 <= i < slots.len(),
        slots[i].is_err(),
    ensures
        !(combined_verdict(slots) is Ready),
{
    if !any_unresolved(slots) {
        assert(any_failed(slots));
    }
}

/// Law: a `Ready` collection is stable. Once every slot resolved
/// successfully, any further lifecycle steps leave the slots — and hence the
/// verdict — unchanged, so a later evaluation can never observe a stale or
/// partial value.
pub proof fn lemma_ready_stable(before: Seq<Slot>, after: Seq<Slot>)
    requires
        before.len() == after.len(),
        forall|i: int| 0 <= i < before.len() ==> before[i].steps_to(#[trigger] after[i]),
        combined_verdict(before) is Ready,
    ensures
        after =~= before,
        combined_verdict(after) == combined_verdict(before),
{
    assert forall|i: int| 0 <= i < after.len() implies after[i] == before[i] by {
        assert(!before[i].is_unresolved());
    }
    assert(after =~= before);
    assert(after == before);
}

} // verus!
