//! One asynchronous computation and its resolution states.

use vstd::prelude::*;

verus! {

/// An opaque failure signal: the demo distinguishes no causes, so a failed
/// operation carries no payload.
#[derive(Clone, Copy, Debug, PartialEq, Eq)]
pub struct SlotError;

/// One in-flight or completed asynchronous computation. A slot is in exactly
/// one state at any time; it transitions only from `Unresolved` to
/// `Resolved`, never back.
#[derive(Clone, Copy, Debug, PartialEq, Eq)]
pub enum Slot {
    Unresolved,
    Resolved(Result<u64, SlotError>),
}

impl Slot {
    /// The slot's operation has not completed yet.
    pub open spec fn is_unresolved(self) -> bool {
        self is Unresolved
    }

    /// The slot's operation completed with a value.
    pub open spec fn is_ok(self) -> bool {
        self matches Slot::Resolved(Ok(_))
    }

    /// The slot's operation completed with an error.
    pub open spec fn is_err(self) -> bool {
        self matches Slot::Resolved(Err(_))
    }

    /// The value a successfully resolved slot carries.
    pub open spec fn value(self) -> u64
        recommends
            self.is_ok(),
    {
        match self {
            Slot::Resolved(Ok(v)) => v,
            _ => arbitrary(),
        }
    }

    /// One step of a slot's life: an unresolved slot may resolve (or stay
    /// pending), while a resolved slot never changes again.
    pub open spec fn steps_to(self, next: Slot) -> bool {
        self is Unresolved || next == self
    }

    /// Test whether the slot is still pending.
    pub fn is_pending(&self) -> (r: bool)
        ensures
            r == self.is_unresolved(),
    {
        match self {
            Slot::Unresolved => true,
            _ => false,
        }
    }

    /// Test whether the slot resolved with an error.
    pub fn is_failed(&self) -> (r: bool)
        ensures
            r == self.is_err(),
    {
        match self {
            Slot::Resolved(Err(_)) => true,
            _ => false,
        }
    }

    /// The value of a successfully resolved slot.
    pub fn unwrap_value(&self) -> (r: u64)
        requires
            self.is_ok(),
        ensures
            r == self.value(),
    {
        match self {
            Slot::Resolved(Ok(v)) => *v,
            _ => 0,
        }
    }
}

} // verus!
