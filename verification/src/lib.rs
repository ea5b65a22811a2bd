//! A verified join of independently resolving asynchronous results.
//!
//! The library models a fixed-size collection of asynchronous slots, each
//! either still pending or resolved with a value or an error, and combines
//! them into a single verdict under a fixed precedence: a pending slot makes
//! the whole join `Loading`, otherwise any failed slot makes it `Failed`,
//! otherwise it is `Ready` and carries every value in input order.
//!
//! Two combination strategies — a single match over a pair of slots and a
//! sequence of per-slot early-return checks — are each proved against the
//! same precedence table, so they agree on every input. A lifecycle tracker
//! guarantees that the informational "rendered ready" event fires exactly
//! once per successful combination, no matter how many evaluations run. A
//! small time model relates operation durations to the verdict observed at
//! any instant, and a route table maps request paths to pages.

pub mod combinator;
pub mod lifecycle;
pub mod routes;
pub mod slot;
pub mod timeline;
pub mod verdict;

pub use combinator::combine;
pub use combinator::combine_pair_match;
pub use combinator::combine_pair_unwrap;
pub use lifecycle::ReadyTracker;
pub use lifecycle::RenderContext;
pub use routes::Page;
pub use slot::Slot;
pub use slot::SlotError;
pub use verdict::Verdict;
