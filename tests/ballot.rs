use ballot_ledger::ballot::{Ballot, BallotError, Voter, MAX_DELEGATION_HOPS};

const CHAIR: u64 = 1;
const P1: u64 = 2;
const P2: u64 = 3;
const P3: u64 = 4;

fn two_proposals() -> Ballot {
    Ballot::new(CHAIR, vec!["A".to_string(), "B".to_string()])
}

#[test]
fn construction_gives_chair_weight_one() {
    let b = two_proposals();
    assert_eq!(b.chair_person(), CHAIR);
    assert_eq!(b.get(CHAIR), Voter { weight: 1, voted: false, delegate: None, vote: None });
    assert_eq!(b.get(P1), Voter::default());
    assert_eq!(b.proposal_count(), 2);
    assert_eq!(b.proposal_name(0), "A");
    assert_eq!(b.proposal_name(1), "B");
    assert_eq!(b.vote_count(0), 0);
    assert_eq!(b.vote_count(1), 0);
    assert_eq!(b.total_granted(), 1);
}

#[test]
fn two_direct_votes_pick_first_proposal() {
    let mut b = two_proposals();
    assert_eq!(b.get(CHAIR).weight, 1);
    assert_eq!(b.give_right_to_vote(CHAIR, P1), Ok(()));
    assert_eq!(b.give_right_to_vote(CHAIR, P2), Ok(()));
    assert_eq!(b.vote(P1, 0), Ok(()));
    assert_eq!(b.vote(P2, 0), Ok(()));
    assert_eq!(b.winning_proposal(), Some(0));
    assert_eq!(b.winner_name(), Ok("A".to_string()));
}

#[test]
fn delegation_to_chair_before_chair_votes() {
    let mut b = two_proposals();
    assert_eq!(b.give_right_to_vote(CHAIR, P1), Ok(()));
    assert_eq!(b.delegate(P1, CHAIR), Ok(CHAIR));
    assert_eq!(b.get(CHAIR).weight, 2);
    assert_eq!(b.vote(CHAIR, 1), Ok(()));
    assert_eq!(b.vote_count(1), 2);
    assert_eq!(b.vote_count(0), 0);
    assert_eq!(b.winning_proposal(), Some(1));
    assert_eq!(b.winner_name(), Ok("B".to_string()));
}

#[test]
fn delegation_back_is_a_cycle_and_changes_nothing() {
    let mut b = two_proposals();
    assert_eq!(b.give_right_to_vote(CHAIR, P1), Ok(()));
    assert_eq!(b.give_right_to_vote(CHAIR, P2), Ok(()));
    assert_eq!(b.delegate(P1, P2), Ok(P2));
    let p1 = b.get(P1);
    let p2 = b.get(P2);
    assert_eq!(p1, Voter { weight: 1, voted: true, delegate: Some(P2), vote: None });
    assert_eq!(p2, Voter { weight: 2, voted: false, delegate: None, vote: None });
    assert_eq!(b.delegate(P2, P1), Err(BallotError::DelegationCycle));
    assert_eq!(b.get(P1), p1);
    assert_eq!(b.get(P2), p2);
    assert_eq!(b.vote_count(0), 0);
    assert_eq!(b.vote_count(1), 0);
}

#[test]
fn three_hop_cycle_is_rejected() {
    let mut b = two_proposals();
    for p in [P1, P2, P3] {
        assert_eq!(b.give_right_to_vote(CHAIR, p), Ok(()));
    }
    assert_eq!(b.delegate(P1, P2), Ok(P2));
    assert_eq!(b.delegate(P2, P3), Ok(P3));
    assert_eq!(b.get(P3).weight, 3);
    assert_eq!(b.delegate(P3, P1), Err(BallotError::DelegationCycle));
    assert!(!b.get(P3).voted);
}

#[test]
fn delegation_resolves_to_end_of_chain() {
    let mut b = two_proposals();
    for p in [P1, P2, P3] {
        assert_eq!(b.give_right_to_vote(CHAIR, p), Ok(()));
    }
    assert_eq!(b.delegate(P2, P3), Ok(P3));
    assert_eq!(b.delegate(P1, P2), Ok(P3));
    assert_eq!(b.get(P1).delegate, Some(P3));
    assert_eq!(b.get(P3).weight, 3);
    assert_eq!(b.vote(P3, 1), Ok(()));
    assert_eq!(b.vote_count(1), 3);
}

#[test]
fn delegation_to_a_voter_adds_to_tally() {
    let mut b = two_proposals();
    assert_eq!(b.give_right_to_vote(CHAIR, P1), Ok(()));
    assert_eq!(b.vote(CHAIR, 1), Ok(()));
    assert_eq!(b.delegate(P1, CHAIR), Ok(CHAIR));
    assert_eq!(b.vote_count(1), 2);
    assert_eq!(b.get(CHAIR).weight, 1);
}

#[test]
fn long_chain_is_rejected() {
    // Participants 100, 101, ... delegate forward, one link each.
    let n = MAX_DELEGATION_HOPS + 2;
    let mut b = Ballot::new(CHAIR, vec!["A".to_string()]);
    for i in 0..n {
        assert_eq!(b.give_right_to_vote(CHAIR, 100 + i), Ok(()));
    }
    for i in 0..n - 1 {
        assert_eq!(b.delegate(100 + i, 101 + i), Ok(101 + i));
    }
    assert_eq!(b.give_right_to_vote(CHAIR, P1), Ok(()));
    assert_eq!(b.delegate(P1, 100), Err(BallotError::DelegationChainTooLong));
    assert!(!b.get(P1).voted);
    assert_eq!(b.delegate(P1, 101), Ok(100 + n - 1));
    assert_eq!(b.get(100 + n - 1).weight, n + 1);
}

#[test]
fn second_call_fails_already_voted() {
    let mut b = two_proposals();
    assert_eq!(b.give_right_to_vote(CHAIR, P1), Ok(()));
    assert_eq!(b.give_right_to_vote(CHAIR, P2), Ok(()));
    assert_eq!(b.vote(P1, 0), Ok(()));
    assert_eq!(b.vote(P1, 1), Err(BallotError::AlreadyVoted));
    assert_eq!(b.delegate(P1, P2), Err(BallotError::AlreadyVoted));
    assert_eq!(b.delegate(P2, CHAIR), Ok(CHAIR));
    assert_eq!(b.delegate(P2, P1), Err(BallotError::AlreadyVoted));
    assert_eq!(b.vote(P2, 0), Err(BallotError::AlreadyVoted));
    assert_eq!(b.vote_count(0), 1);
}

#[test]
fn out_of_range_vote_is_invalid() {
    let mut b = two_proposals();
    assert_eq!(b.vote(CHAIR, 2), Err(BallotError::InvalidProposal));
    assert_eq!(b.vote(CHAIR, -1), Err(BallotError::InvalidProposal));
    assert_eq!(b.vote(CHAIR, i32::MAX), Err(BallotError::InvalidProposal));
    assert_eq!(b.vote_count(0), 0);
    assert_eq!(b.vote_count(1), 0);
    assert!(!b.get(CHAIR).voted);
    assert_eq!(b.vote(CHAIR, 1), Ok(()));
}

#[test]
fn grant_errors() {
    let mut b = two_proposals();
    assert_eq!(b.give_right_to_vote(P1, P2), Err(BallotError::Unauthorized));
    assert_eq!(b.give_right_to_vote(CHAIR, CHAIR), Err(BallotError::AlreadyEnfranchised));
    assert_eq!(b.give_right_to_vote(CHAIR, P1), Ok(()));
    assert_eq!(b.give_right_to_vote(CHAIR, P1), Err(BallotError::AlreadyEnfranchised));
    assert_eq!(b.vote(P1, 0), Ok(()));
    assert_eq!(b.give_right_to_vote(CHAIR, P1), Err(BallotError::AlreadyVoted));
    assert_eq!(b.total_granted(), 2);
}

#[test]
fn vote_and_delegate_errors() {
    let mut b = two_proposals();
    assert_eq!(b.vote(P1, 0), Err(BallotError::NoRight));
    assert_eq!(b.delegate(CHAIR, CHAIR), Err(BallotError::SelfDelegation));
}

#[test]
fn tie_goes_to_lower_index() {
    let mut b = Ballot::new(CHAIR, vec!["A".to_string(), "B".to_string(), "C".to_string()]);
    assert_eq!(b.give_right_to_vote(CHAIR, P1), Ok(()));
    assert_eq!(b.vote(P1, 2), Ok(()));
    assert_eq!(b.vote(CHAIR, 1), Ok(()));
    assert_eq!(b.winning_proposal(), Some(1));
    assert_eq!(b.winner_name(), Ok("B".to_string()));
}

#[test]
fn no_votes_means_first_proposal_wins() {
    let b = two_proposals();
    assert_eq!(b.winning_proposal(), Some(0));
    assert_eq!(b.winner_name(), Ok("A".to_string()));
}

#[test]
fn empty_ballot_has_no_winner() {
    let b = Ballot::new(CHAIR, Vec::new());
    assert_eq!(b.proposal_count(), 0);
    assert_eq!(b.winning_proposal(), None);
    assert_eq!(b.winner_name(), Err(BallotError::NoProposals));
}

#[test]
fn weight_is_conserved() {
    let mut b = two_proposals();
    for p in [P1, P2, P3] {
        assert_eq!(b.give_right_to_vote(CHAIR, p), Ok(()));
    }
    assert_eq!(b.delegate(P1, P2), Ok(P2));
    assert_eq!(b.vote(P2, 0), Ok(()));
    assert_eq!(b.vote(P3, 1), Ok(()));
    assert_eq!(b.delegate(CHAIR, P3), Ok(P3));
    assert_eq!(b.total_granted(), 4);
    assert_eq!(b.vote_count(0) + b.vote_count(1), 4);
    assert_eq!(b.vote_count(0), 2);
    assert_eq!(b.vote_count(1), 2);
}
