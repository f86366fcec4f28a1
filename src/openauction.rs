//! An open auction: the highest bid before the end time wins, and every outbid bid
//! can be withdrawn by its bidder.
use crate::AccountId;
use crate::registry::{find, keys_unique, lemma_lookup_at, lookup, put};
use vstd::prelude::*;

verus! {

/// A point in time, in the environment's units.
pub type Timestamp = u64;

/// Why an auction call was rejected.
#[derive(Clone, Copy, Debug, PartialEq, Eq, Structural)]
pub enum AuctionError {
    AuctionAlreadyEnded,
    BidNotHighEnough,
    AuctionNotYetEnded,
    AuctionEndAlreadyCalled,
}

/// Emitted when a bid becomes the highest.
#[derive(Clone, Copy, Debug, PartialEq, Eq, Structural)]
pub struct HighestBidIncreased {
    pub bidder: AccountId,
    pub amount: u128,
}

/// Emitted when the auction is closed.
#[derive(Clone, Copy, Debug, PartialEq, Eq, Structural)]
pub struct AuctionEnded {
    pub winner: Option<AccountId>,
    pub amount: u128,
}

/// A payment that the environment must carry out.
#[derive(Clone, Copy, Debug, PartialEq, Eq, Structural)]
pub struct Payout {
    pub to: AccountId,
    pub amount: u128,
}

/// The auction's state.
pub struct Openauction {
    beneficiary: AccountId,
    auction_end_time: Timestamp,
    highest_bidder: Option<AccountId>,
    highest_bid: u128,
    pending_returns: Vec<(AccountId, u128)>,
    ended: bool,
}

/// The mathematical model of an auction.
pub ghost struct OpenauctionView {
    pub beneficiary: AccountId,
    pub auction_end_time: Timestamp,
    pub highest_bidder: Option<AccountId>,
    pub highest_bid: u128,
    /// What each bidder may withdraw; zero for a bidder never outbid.
    pub pending_returns: spec_fn(AccountId) -> u128,
    pub ended: bool,
}

impl View for Openauction {
    type V = OpenauctionView;

    closed spec fn view(&self) -> OpenauctionView {
        OpenauctionView {
            beneficiary: self.beneficiary,
            auction_end_time: self.auction_end_time,
            highest_bidder: self.highest_bidder,
            highest_bid: self.highest_bid,
            pending_returns: |id: AccountId| lookup(self.pending_returns@, id, 0u128),
            ended: self.ended,
        }
    }
}

impl Openauction {
    /// The entries of the refund store are keyed uniquely, and a positive highest bid has a bidder.
    pub closed spec fn wf(&self) -> bool {
        &&& keys_unique(self.pending_returns@)
        &&& self.highest_bid > 0 ==> self.highest_bidder is Some
    }

    /// What `id` may withdraw.
    pub open spec fn pending(&self, id: AccountId) -> u128 {
        (self@.pending_returns)(id)
    }

    /// Opens an auction for `beneficiary` at time `now` that takes bids for `bidding_time`.
    pub fn new(now: Timestamp, bidding_time: Timestamp, beneficiary: AccountId) -> (r: Openauction)
        requires
            now + bidding_time <= u64::MAX,
        ensures
            r.wf(),
            r@.beneficiary == beneficiary,
            r@.auction_end_time == now + bidding_time,
            r@.highest_bidder is None,
            r@.highest_bid == 0,
            forall|id: AccountId| #[trigger] r.pending(id) == 0,
            !r@.ended,
    {
        Openauction {
            beneficiary,
            auction_end_time: now + bidding_time,
            highest_bidder: None,
            highest_bid: 0,
            pending_returns: Vec::new(),
            ended: false,
        }
    }

    fn pending_of(&self, id: AccountId) -> (r: u128)
        requires
            self.wf(),
        ensures
            r == self.pending(id),
    {
        match find(&self.pending_returns, id) {
            Some(i) => {
                proof {
                    lemma_lookup_at(self.pending_returns@, i as int, 0u128);
                }
                self.pending_returns[i].1
            },
            None => 0,
        }
    }

    /// `caller` bids `amount` at time `now`; an outbid highest bid becomes withdrawable
    /// by its bidder.
    pub fn bid(&mut self, caller: AccountId, now: Timestamp, amount: u128) -> (r: Result<HighestBidIncreased, AuctionError>)
        requires
            old(self).wf(),
            old(self)@.highest_bidder matches Some(h) ==> old(self).pending(h) + old(self)@.highest_bid
                <= u128::MAX,
        ensures
            final(self).wf(),
            r is Err ==> final(self)@ == old(self)@,
            now > old(self)@.auction_end_time ==> r == Err::<HighestBidIncreased, AuctionError>(
                AuctionError::AuctionAlreadyEnded,
            ),
            now <= old(self)@.auction_end_time && amount <= old(self)@.highest_bid ==> r == Err::<
                HighestBidIncreased,
                AuctionError,
            >(AuctionError::BidNotHighEnough),
            now <= old(self)@.auction_end_time && amount > old(self)@.highest_bid ==> {
                &&& r == Ok::<HighestBidIncreased, AuctionError>(HighestBidIncreased { bidder: caller, amount })
                &&& final(self)@.highest_bidder == Some(caller)
                &&& final(self)@.highest_bid == amount
                &&& forall|id: AccountId| #[trigger] final(self).pending(id) == if old(self)@.highest_bid
                    != 0 && old(self)@.highest_bidder == Some(id) {
                    (old(self).pending(id) + old(self)@.highest_bid) as u128
                } else {
                    old(self).pending(id)
                }
                &&& final(self)@.beneficiary == old(self)@.beneficiary
                &&& final(self)@.auction_end_time == old(self)@.auction_end_time
                &&& final(self)@.ended == old(self)@.ended
            },
    {
        if now > self.auction_end_time {
            return Err(AuctionError::AuctionAlreadyEnded);
        }
        if amount <= self.highest_bid {
            return Err(AuctionError::BidNotHighEnough);
        }
        if self.highest_bid != 0 {
            let h = self.highest_bidder.unwrap();
            let owed = self.pending_of(h) + self.highest_bid;
            put(&mut self.pending_returns, h, owed, Ghost(0u128));
        }
        self.highest_bidder = Some(caller);
        self.highest_bid = amount;
        Ok(HighestBidIncreased { bidder: caller, amount })
    }

    /// Takes out everything `caller` may withdraw; the environment pays it out.
    pub fn withdraw(&mut self, caller: AccountId) -> (r: Option<Payout>)
        requires
            old(self).wf(),
        ensures
            final(self).wf(),
            old(self).pending(caller) == 0 ==> r is None && final(self)@ == old(self)@,
            old(self).pending(caller) > 0 ==> r == Some(Payout { to: caller, amount: old(self).pending(caller) }),
            final(self).pending(caller) == 0,
            forall|id: AccountId| id != caller ==> #[trigger] final(self).pending(id) == old(self).pending(id),
            final(self)@.beneficiary == old(self)@.beneficiary,
            final(self)@.auction_end_time == old(self)@.auction_end_time,
            final(self)@.highest_bidder == old(self)@.highest_bidder,
            final(self)@.highest_bid == old(self)@.highest_bid,
            final(self)@.ended == old(self)@.ended,
    {
        let amount = self.pending_of(caller);
        if amount == 0 {
            return None;
        }
        put(&mut self.pending_returns, caller, 0, Ghost(0u128));
        Some(Payout { to: caller, amount })
    }

    /// Puts back the amount of a withdrawal whose payment failed.
    pub fn withdraw_failed(&mut self, p: Payout)
        requires
            old(self).wf(),
        ensures
            final(self).wf(),
            final(self).pending(p.to) == p.amount,
            forall|id: AccountId| id != p.to ==> #[trigger] final(self).pending(id) == old(self).pending(id),
            final(self)@.beneficiary == old(self)@.beneficiary,
            final(self)@.auction_end_time == old(self)@.auction_end_time,
            final(self)@.highest_bidder == old(self)@.highest_bidder,
            final(self)@.highest_bid == old(self)@.highest_bid,
            final(self)@.ended == old(self)@.ended,
    {
        put(&mut self.pending_returns, p.to, p.amount, Ghost(0u128));
    }

    /// Closes the auction at time `now`; the highest bid goes to the beneficiary.
    pub fn auction_end(&mut self, now: Timestamp) -> (r: Result<(AuctionEnded, Payout), AuctionError>)
        requires
            old(self).wf(),
        ensures
            final(self).wf(),
            r is Err ==> final(self)@ == old(self)@,
            now < old(self)@.auction_end_time ==> r == Err::<(AuctionEnded, Payout), AuctionError>(
                AuctionError::AuctionNotYetEnded,
            ),
            now >= old(self)@.auction_end_time && old(self)@.ended ==> r == Err::<
                (AuctionEnded, Payout),
                AuctionError,
            >(AuctionError::AuctionEndAlreadyCalled),
            now >= old(self)@.auction_end_time && !old(self)@.ended ==> {
                &&& r == Ok::<(AuctionEnded, Payout), AuctionError>(
                    (
                        AuctionEnded { winner: old(self)@.highest_bidder, amount: old(self)@.highest_bid },
                        Payout { to: old(self)@.beneficiary, amount: old(self)@.highest_bid },
                    ),
                )
                &&& final(self)@ == (OpenauctionView { ended: true, ..old(self)@ })
            },
    {
        if now < self.auction_end_time {
            return Err(AuctionError::AuctionNotYetEnded);
        }
        if self.ended {
            return Err(AuctionError::AuctionEndAlreadyCalled);
        }
        self.ended = true;
        Ok((
            AuctionEnded { winner: self.highest_bidder, amount: self.highest_bid },
            Payout { to: self.beneficiary, amount: self.highest_bid },
        ))
    }

    /// What `id` may withdraw.
    pub fn pending_return(&self, id: AccountId) -> (r: u128)
        requires
            self.wf(),
        ensures
            r == self.pending(id),
    {
        self.pending_of(id)
    }

    /// The highest bid so far.
    pub fn highest_bid(&self) -> (r: u128)
        ensures
            r == self@.highest_bid,
    {
        self.highest_bid
    }

    /// The highest bidder so far.
    pub fn highest_bidder(&self) -> (r: Option<AccountId>)
        ensures
            r == self@.highest_bidder,
    {
        self.highest_bidder
    }
}

} // verus!
