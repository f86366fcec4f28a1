//! The bidding phase of a blind auction: bidders deposit funds with a sealed bid
//! before the bidding end.
use crate::AccountId;
use crate::openauction::Timestamp;
use crate::registry::{has_key, keys_unique, lookup, put};
use vstd::pervasive::arbitrary;
use vstd::prelude::*;

verus! {

/// A sealed bid and the deposit sent with it.
#[derive(Debug)]
pub struct Bid {
    pub blinded_bid: String,
    pub deposit: u128,
}

/// Why a blind-auction call was rejected.
#[derive(Clone, Copy, Debug, PartialEq, Eq, Structural)]
pub enum BlindAuctionError {
    BiddingClosed,
}

/// Emitted when the auction is closed.
#[derive(Clone, Copy, Debug, PartialEq, Eq, Structural)]
pub struct AuctionEnded {
    pub winner: AccountId,
    pub highest_bid: u128,
}

/// The auction's state.
pub struct Blindauction {
    beneficiary: AccountId,
    bidding_end: Timestamp,
    reveal_end: Timestamp,
    bids: Vec<(AccountId, Vec<Bid>)>,
}

impl Blindauction {
    /// The identity that receives the winning bid.
    pub closed spec fn beneficiary_spec(&self) -> AccountId {
        self.beneficiary
    }

    /// The last moment before which bids are taken.
    pub closed spec fn bidding_end_spec(&self) -> Timestamp {
        self.bidding_end
    }

    /// The end of the reveal phase.
    pub closed spec fn reveal_end_spec(&self) -> Timestamp {
        self.reveal_end
    }

    /// The bids on record for `id`.
    pub closed spec fn bids_of(&self, id: AccountId) -> Seq<Bid> {
        if has_key(self.bids@, id) {
            lookup(self.bids@, id, arbitrary())@
        } else {
            Seq::empty()
        }
    }

    /// The entries of the bid store are keyed uniquely.
    pub closed spec fn wf(&self) -> bool {
        keys_unique(self.bids@)
    }

    /// Opens an auction for `beneficiary` at `now`, with a bidding phase of `bidding_time`
    /// followed by a reveal phase of `reveal_time`.
    pub fn new(now: Timestamp, bidding_time: Timestamp, reveal_time: Timestamp, beneficiary: AccountId) -> (r: Blindauction)
        requires
            now + bidding_time + reveal_time <= u64::MAX,
        ensures
            r.wf(),
            r.beneficiary_spec() == beneficiary,
            r.bidding_end_spec() == now + bidding_time,
            r.reveal_end_spec() == now + bidding_time + reveal_time,
    {
        let bidding_end = now + bidding_time;
        Blindauction { beneficiary, bidding_end, reveal_end: bidding_end + reveal_time, bids: Vec::new() }
    }

    /// `caller` places the sealed bid `blinded_bid` with `deposit` at `now`; it replaces the
    /// caller's earlier bids.
    pub fn bid(&mut self, caller: AccountId, now: Timestamp, blinded_bid: String, deposit: u128) -> (r: Result<(), BlindAuctionError>)
        requires
            old(self).wf(),
        ensures
            final(self).wf(),
            final(self).beneficiary_spec() == old(self).beneficiary_spec(),
            final(self).bidding_end_spec() == old(self).bidding_end_spec(),
            final(self).reveal_end_spec() == old(self).reveal_end_spec(),
            now >= old(self).bidding_end_spec() <==> r is Err,
            r matches Err(e) ==> e == BlindAuctionError::BiddingClosed && forall|id: AccountId| #[trigger]
                final(self).bids_of(id) == old(self).bids_of(id),
            r is Ok ==> final(self).bids_of(caller) == seq![Bid { blinded_bid, deposit }],
            r is Ok ==> forall|id: AccountId| id != caller ==> #[trigger] final(self).bids_of(id) == old(self).bids_of(id),
    {
        if now >= self.bidding_end {
            return Err(BlindAuctionError::BiddingClosed);
        }
        let ghost b = Bid { blinded_bid, deposit };
        let entry = vec![Bid { blinded_bid, deposit }];
        assert(entry@ =~= seq![b]);
        put(&mut self.bids, caller, entry, Ghost(arbitrary()));
        Ok(())
    }

    /// The number of bids on record for `id`.
    pub fn bid_count(&self, id: AccountId) -> (r: usize)
        requires
            self.wf(),
        ensures
            r == self.bids_of(id).len(),
    {
        match crate::registry::find(&self.bids, id) {
            Some(i) => {
                proof {
                    crate::registry::lemma_lookup_at(self.bids@, i as int, arbitrary());
                    assert(has_key(self.bids@, id));
                }
                self.bids[i].1.len()
            },
            None => 0,
        }
    }

    /// The deposit of the `k`-th bid on record for `id`.
    pub fn deposit_of(&self, id: AccountId, k: usize) -> (r: u128)
        requires
            self.wf(),
            k < self.bids_of(id).len(),
        ensures
            r == self.bids_of(id)[k as int].deposit,
    {
        match crate::registry::find(&self.bids, id) {
            Some(i) => {
                proof {
                    crate::registry::lemma_lookup_at(self.bids@, i as int, arbitrary());
                    assert(has_key(self.bids@, id));
                }
                self.bids[i].1[k].deposit
            },
            None => 0,
        }
    }
}

} // verus!
