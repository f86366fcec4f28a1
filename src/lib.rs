//! A voting ledger with weighted ballots and transitive delegation, together with the
//! simpler contracts that share its execution model: an escrow, an open auction, the
//! bidding phase of a blind auction and a registry of house tokens.
//!
//! Every operation takes the authenticated caller (and, where it matters, the transferred
//! value or the current time) as arguments, and hands back the events and payments that
//! the surrounding environment must carry out.
use vstd::prelude::*;

pub mod ballot;
pub mod blindauction;
pub mod housetoken;
pub mod openauction;
pub mod purchase;
mod registry;
pub mod sums;

verus! {

/// Identity of a participant, as authenticated by the surrounding environment.
pub type AccountId = u64;

} // verus!
