//! Executable combination of slots into a verdict, in the three shapes the
//! pages use: a general pass over any number of slots, a single match over a
//! pair, and per-slot early-return checks over a pair.

use crate::slot::Slot;
use crate::verdict::{any_failed, any_unresolved, combined_verdict, ok_values, pair_verdict,
    lemma_pair_precedence, Verdict};
use vstd::prelude::*;

verus! {

/// Combine any number of independently resolving slots into one verdict
/// under the fixed precedence: `Loading` if any slot is pending, else
/// `Failed` if any slot resolved with an error, else `Ready` with all values
/// in input order.
pub fn combine(slots: &Vec<Slot>) -> (v: Verdict)
    ensures
        v@ == combined_verdict(slots@),
{
    let mut values: Vec<u64> = Vec::new();
    let mut saw_error: bool = false;
    let mut i: usize = 0;
    while i < slots.len()
        invariant
            0 <= i <= slots@.len(),
            forall|j: int| 0 <= j < i ==> !(#[trigger] slots@[j]).is_unresolved(),
            saw_error == any_failed(slots@.take(i as int)),
            !saw_error ==> values@ == ok_values(slots@.take(i as int)),
        decreases slots@.len() - i,
    {
        let ghost prefix = slots@.take(i as int);
        let ghost next_prefix = slots@.take(i as int + 1);
        assert(next_prefix == prefix.push(slots@[i as int]));
        match slots[i] {
            Slot::Unresolved => {
                assert(any_unresolved(slots@));
                return Verdict::Loading;
            },
            Slot::Resolved(Err(_)) => {
                assert(next_prefix[i as int].is_err());
                assert(any_failed(next_prefix));
                saw_error = true;
            },
            Slot::Resolved(Ok(value)) => {
                proof {
                    assert forall|j: int| 0 <= j < next_prefix.len()
                        && #[trigger] next_prefix[j].is_err() implies any_failed(prefix) by {
                        if j < i {
                            assert(prefix[j].is_err());
                        }
                    }
                }
                if !saw_error {
                    values.push(value);
                    assert(values@ =~= ok_values(next_prefix));
                }
            },
        }
        i += 1;
    }
    assert(slots@.take(i as int) == slots@);
    assert(!any_unresolved(slots@));
    if saw_error {
        Verdict::Failed
    } else {
        Verdict::Ready(values)
    }
}

/// Combine a pair of slots with a single match over both states at once:
/// the arm order realizes the precedence table directly.
pub fn combine_pair_match(first: &Slot, second: &Slot) -> (v: Verdict)
    ensures
        v@ == pair_verdict(*first, *second),
        v@ == combined_verdict(seq![*first, *second]),
{
    proof {
        lemma_pair_precedence(*first, *second);
    }
    match (first, second) {
        (Slot::Unresolved, _) | (_, Slot::Unresolved) => Verdict::Loading,
        (Slot::Resolved(Err(_)), _) | (_, Slot::Resolved(Err(_))) => Verdict::Failed,
        (Slot::Resolved(Ok(one)), Slot::Resolved(Ok(two))) => {
            let mut values: Vec<u64> = Vec::new();
            values.push(*one);
            values.push(*two);
            assert(values@ =~= seq![first.value(), second.value()]);
            Verdict::Ready(values)
        },
    }
}

/// Combine a pair of slots by sequential early-return checks, the manual
/// unwrap style. Both pending tests must come before either error test:
/// testing one slot for an error while the other is still pending would
/// report `Failed` where the precedence table demands `Loading`.
pub fn combine_pair_unwrap(first: &Slot, second: &Slot) -> (v: Verdict)
    ensures
        v@ == pair_verdict(*first, *second),
        v@ == combined_verdict(seq![*first, *second]),
{
    proof {
        lemma_pair_precedence(*first, *second);
    }
    if first.is_pending() {
        return Verdict::Loading;
    }
    if second.is_pending() {
        return Verdict::Loading;
    }
    if first.is_failed() {
        return Verdict::Failed;
    }
    if second.is_failed() {
        return Verdict::Failed;
    }
    let mut values: Vec<u64> = Vec::new();
    values.push(first.unwrap_value());
    values.push(second.unwrap_value());
    assert(values@ =~= seq![first.value(), second.value()]);
    Verdict::Ready(values)
}

} // verus!
