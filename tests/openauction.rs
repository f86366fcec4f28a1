use ballot_ledger::openauction::{AuctionEnded, AuctionError, HighestBidIncreased, Openauction, Payout};

const BENEFICIARY: u64 = 1;
const ALICE: u64 = 2;
const BOB: u64 = 3;

#[test]
fn outbid_bid_becomes_withdrawable() {
    let mut a = Openauction::new(100, 50, BENEFICIARY);
    assert_eq!(a.bid(ALICE, 110, 10), Ok(HighestBidIncreased { bidder: ALICE, amount: 10 }));
    assert_eq!(a.bid(BOB, 120, 10), Err(AuctionError::BidNotHighEnough));
    assert_eq!(a.bid(BOB, 120, 15), Ok(HighestBidIncreased { bidder: BOB, amount: 15 }));
    assert_eq!(a.highest_bid(), 15);
    assert_eq!(a.highest_bidder(), Some(BOB));
    assert_eq!(a.pending_return(ALICE), 10);
    assert_eq!(a.pending_return(BOB), 0);
    assert_eq!(a.bid(ALICE, 130, 20), Ok(HighestBidIncreased { bidder: ALICE, amount: 20 }));
    assert_eq!(a.pending_return(BOB), 15);
    assert_eq!(a.pending_return(ALICE), 10);
    assert_eq!(a.bid(BOB, 130, 30), Ok(HighestBidIncreased { bidder: BOB, amount: 30 }));
    assert_eq!(a.pending_return(ALICE), 30);
}

#[test]
fn withdraw_takes_everything_once() {
    let mut a = Openauction::new(0, 10, BENEFICIARY);
    assert_eq!(a.bid(ALICE, 1, 5), Ok(HighestBidIncreased { bidder: ALICE, amount: 5 }));
    assert_eq!(a.bid(BOB, 2, 8), Ok(HighestBidIncreased { bidder: BOB, amount: 8 }));
    assert_eq!(a.withdraw(BOB), None);
    let p = a.withdraw(ALICE);
    assert_eq!(p, Some(Payout { to: ALICE, amount: 5 }));
    assert_eq!(a.pending_return(ALICE), 0);
    assert_eq!(a.withdraw(ALICE), None);
    a.withdraw_failed(p.unwrap());
    assert_eq!(a.pending_return(ALICE), 5);
}

#[test]
fn late_bid_and_early_end_are_rejected() {
    let mut a = Openauction::new(100, 50, BENEFICIARY);
    assert_eq!(a.bid(ALICE, 151, 10), Err(AuctionError::AuctionAlreadyEnded));
    assert_eq!(a.bid(ALICE, 150, 10), Ok(HighestBidIncreased { bidder: ALICE, amount: 10 }));
    assert_eq!(a.auction_end(149), Err(AuctionError::AuctionNotYetEnded));
    assert_eq!(
        a.auction_end(150),
        Ok((AuctionEnded { winner: Some(ALICE), amount: 10 }, Payout { to: BENEFICIARY, amount: 10 }))
    );
    assert_eq!(a.auction_end(200), Err(AuctionError::AuctionEndAlreadyCalled));
}

#[test]
fn auction_without_bids_ends_with_no_winner() {
    let mut a = Openauction::new(0, 0, BENEFICIARY);
    assert_eq!(
        a.auction_end(0),
        Ok((AuctionEnded { winner: None, amount: 0 }, Payout { to: BENEFICIARY, amount: 0 }))
    );
}
