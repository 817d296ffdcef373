//! Settlement of one token payment between an author and a platform.
//!
//! The payment is split ninety to ten, rounding in favour of the author's
//! floor so that the two shares always add up to the amount paid. The
//! settlement itself is a small state machine: it asks for the author
//! transfer, then for the platform transfer, and commits only when both
//! succeeded.
use vstd::prelude::*;

pub mod accounts;
pub mod ledger;
pub mod settlement;
pub mod split;

verus! {

} // verus!
