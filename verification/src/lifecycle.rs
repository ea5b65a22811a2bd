//! The render lifecycle: a tracker that fires the informational "rendered
//! ready" event exactly once per successful combination, a rendering context
//! that owns the slots and the tracker, and the laws that pin the event
//! count over a whole lifecycle.

use crate::combinator::combine;
use crate::slot::{Slot, SlotError};
use crate::verdict::{combined_verdict, ok_values, Verdict, VerdictModel};
use vstd::prelude::*;

verus! {

/// Remembers whether the "rendered ready" event has already fired in this
/// lifecycle.
#[derive(Clone, Copy, Debug, PartialEq, Eq)]
pub struct ReadyTracker {
    pub logged: bool,
}

impl ReadyTracker {
    /// A fresh tracker: the event has not fired yet.
    pub fn new() -> (t: ReadyTracker)
        ensures
            !t.logged,
    {
        ReadyTracker { logged: false }
    }

    /// One evaluation pass over a consistent snapshot of the slots: returns
    /// the verdict and whether the "rendered ready" event fires now. The
    /// event fires exactly when the verdict is `Ready` and it has never
    /// fired before, so re-evaluations of a stable `Ready` state stay
    /// silent.
    pub fn evaluate(&mut self, slots: &Vec<Slot>) -> (r: (Verdict, bool))
        ensures
            r.0@ == combined_verdict(slots@),
            r.1 == (combined_verdict(slots@) is Ready && !old(self).logged),
            final(self).logged == (old(self).logged || combined_verdict(slots@) is Ready),
    {
        let verdict = combine(slots);
        let is_ready = match &verdict {
            Verdict::Ready(_) => true,
            _ => false,
        };
        let fire = is_ready && !self.logged;
        if is_ready {
            self.logged = true;
        }
        (verdict, fire)
    }
}

/// How many times the "rendered ready" event fires when one tracker,
/// starting in state `logged`, evaluates the given snapshots in order.
pub open spec fn ready_events(logged: bool, snapshots: Seq<Seq<Slot>>) -> nat
    decreases snapshots.len(),
{
    if snapshots.len() == 0 {
        0
    } else {
        (if combined_verdict(snapshots[0]) is Ready && !logged {
            1nat
        } else {
            0nat
        }) + ready_events(
            logged || combined_verdict(snapshots[0]) is Ready,
            snapshots.drop_first(),
        )
    }
}

/// Law: once the event has fired, no later evaluation fires it again,
/// whatever the slots do.
pub proof fn lemma_no_refire(snapshots: Seq<Seq<Slot>>)
    ensures
        ready_events(true, snapshots) == 0,
    decreases snapshots.len(),
{
    if snapshots.len() > 0 {
        lemma_no_refire(snapshots.drop_first());
    }
}

/// Law: across a full lifecycle that starts with the event untriggered, the
/// "rendered ready" event fires exactly once when some evaluation observes a
/// `Ready` verdict, and never otherwise — no matter how many intermediate
/// `Loading` or `Failed` evaluations occur.
pub proof fn lemma_ready_event_once(snapshots: Seq<Seq<Slot>>)
    ensures
        ready_events(false, snapshots) == if exists|i: int|
            0 <= i < snapshots.len() && combined_verdict(#[trigger] snapshots[i]) is Ready {
            1nat
        } else {
            0nat
        },
    decreases snapshots.len(),
{
    if snapshots.len() > 0 {
        let rest = snapshots.drop_first();
        if combined_verdict(snapshots[0]) is Ready {
            lemma_no_refire(rest);
        } else {
            lemma_ready_event_once(rest);
            assert forall|i: int|
                0 <= i < rest.len() && combined_verdict(#[trigger] rest[i]) is Ready implies
                exists|j: int|
                    0 <= j < snapshots.len() && combined_verdict(#[trigger] snapshots[j]) is Ready by {
                assert(combined_verdict(snapshots[i + 1]) is Ready);
            }
            assert forall|j: int|
                0 <= j < snapshots.len() && combined_verdict(#[trigger] snapshots[j]) is Ready implies
                exists|i: int| 0 <= i < rest.len() && combined_verdict(#[trigger] rest[i]) is Ready by {
                assert(combined_verdict(rest[j - 1]) is Ready);
            }
        }
    }
}

/// Law: a collection whose slots all resolved successfully is `Ready`,
/// carrying every value in input order.
pub proof fn lemma_all_ok_ready(slots: Seq<Slot>)
    requires
        forall|i: int| 0 <= i < slots.len() ==> (#[trigger] slots[i]).is_ok(),
    ensures
        combined_verdict(slots) == VerdictModel::Ready(ok_values(slots)),
{
}

/// Law: re-evaluating the combinator any number of times against one
/// unchanged, fully successful collection yields the same `Ready` verdict on
/// every pass — `combined_verdict` is a function of the snapshot alone — and
/// the "rendered ready" event fires exactly once over all those passes, so
/// repetition has no duplicate side effect.
pub proof fn lemma_reevaluation_idempotent(slots: Seq<Slot>, passes: nat)
    requires
        forall|i: int| 0 <= i < slots.len() ==> (#[trigger] slots[i]).is_ok(),
        passes > 0,
    ensures
        ready_events(false, Seq::new(passes, |i: int| slots)) == 1,
{
    let snapshots = Seq::new(passes, |i: int| slots);
    lemma_all_ok_ready(slots);
    lemma_ready_event_once(snapshots);
    assert(combined_verdict(snapshots[0]) is Ready);
}

/// One page's rendering state: the slots its operations fill and the tracker
/// for the "rendered ready" event.
pub struct RenderContext {
    pub slots: Vec<Slot>,
    pub tracker: ReadyTracker,
}

impl RenderContext {
    /// A fresh context with `count` pending slots and an untriggered
    /// tracker.
    pub fn new(count: usize) -> (c: RenderContext)
        ensures
            c.slots@.len() == count,
            forall|i: int| 0 <= i < count ==> (#[trigger] c.slots@[i]) is Unresolved,
            !c.tracker.logged,
    {
        let mut slots: Vec<Slot> = Vec::new();
        let mut i: usize = 0;
        while i < count
            invariant
                i <= count,
                slots@.len() == i,
                forall|j: int| 0 <= j < i ==> (#[trigger] slots@[j]) is Unresolved,
            decreases count - i,
        {
            slots.push(Slot::Unresolved);
            i += 1;
        }
        RenderContext { slots, tracker: ReadyTracker::new() }
    }

    /// Deliver the outcome of slot `index`'s operation: the one permitted
    /// transition, from pending to resolved. Everything else, the tracker
    /// included, is untouched.
    pub fn resolve(&mut self, index: usize, outcome: Result<u64, SlotError>)
        requires
            index < old(self).slots@.len(),
            old(self).slots@[index as int] is Unresolved,
        ensures
            final(self).slots@ == old(self).slots@.update(index as int, Slot::Resolved(outcome)),
            final(self).tracker == old(self).tracker,
            forall|i: int| 0 <= i < old(self).slots@.len() ==>
                old(self).slots@[i].steps_to(#[trigger] final(self).slots@[i]),
    {
        self.slots[index] = Slot::Resolved(outcome);
    }

    /// One evaluation pass: recompute the verdict from a consistent snapshot
    /// of all slots, firing the ready event at most once per lifecycle. The
    /// slots themselves are read, never changed.
    pub fn evaluate(&mut self) -> (r: (Verdict, bool))
        ensures
            r.0@ == combined_verdict(old(self).slots@),
            r.1 == (combined_verdict(old(self).slots@) is Ready && !old(self).tracker.logged),
            final(self).slots == old(self).slots,
            final(self).tracker.logged == (old(self).tracker.logged
                || combined_verdict(old(self).slots@) is Ready),
    {
        let verdict = combine(&self.slots);
        let is_ready = match &verdict {
            Verdict::Ready(_) => true,
            _ => false,
        };
        let fire = is_ready && !self.tracker.logged;
        if is_ready {
            self.tracker.logged = true;
        }
        (verdict, fire)
    }

    /// A slot transition delivered by the host runtime: resolve the slot,
    /// then — as the subscription demands — synchronously recompute the
    /// verdict from the new consistent snapshot of all slots.
    pub fn on_slot_update(&mut self, index: usize, outcome: Result<u64, SlotError>) -> (r: (
        Verdict,
        bool,
    ))
        requires
            index < old(self).slots@.len(),
            old(self).slots@[index as int] is Unresolved,
        ensures
            final(self).slots@ == old(self).slots@.update(index as int, Slot::Resolved(outcome)),
            r.0@ == combined_verdict(final(self).slots@),
            r.1 == (combined_verdict(final(self).slots@) is Ready && !old(self).tracker.logged),
            final(self).tracker.logged == (old(self).tracker.logged
                || combined_verdict(final(self).slots@) is Ready),
    {
        self.resolve(index, outcome);
        self.evaluate()
    }
}

/// The mathematical snapshots behind a scripted lifecycle.
pub open spec fn snapshots_model(snapshots: Seq<Vec<Slot>>) -> Seq<Seq<Slot>> {
    snapshots.map_values(|v: Vec<Slot>| v@)
}

/// Run one fresh tracker over a whole scripted lifecycle and count how often
/// the "rendered ready" event fires.
pub fn count_ready_events(snapshots: &Vec<Vec<Slot>>) -> (n: usize)
    ensures
        n == ready_events(false, snapshots_model(snapshots@)),
{
    let ghost m = snapshots_model(snapshots@);
    proof {
        assert(m.skip(0) =~= m);
    }
    let mut tracker = ReadyTracker::new();
    let mut count: usize = 0;
    let mut i: usize = 0;
    while i < snapshots.len()
        invariant
            0 <= i <= snapshots@.len(),
            m == snapshots_model(snapshots@),
            count <= i,
            count + ready_events(tracker.logged, m.skip(i as int)) == ready_events(false, m),
        decreases snapshots@.len() - i,
    {
        let ghost suffix = m.skip(i as int);
        assert(suffix[0] == m[i as int]);
        assert(suffix.drop_first() =~= m.skip(i as int + 1));
        let (_, fire) = tracker.evaluate(&snapshots[i]);
        if fire {
            count += 1;
        }
        i += 1;
    }
    assert(m.skip(i as int) =~= Seq::<Seq<Slot>>::empty());
    count
}

} // verus!
