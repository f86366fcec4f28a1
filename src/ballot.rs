//! The participant registry and the delegation and tally engine of a ballot.
use crate::sums::{lemma_sum_bounds, lemma_sum_nonneg, lemma_sum_push, lemma_sum_update, sum_of};
use crate::registry::{find, has_key, keys_unique, lemma_lookup_at, lookup, put};
use vstd::prelude::*;

verus! {

pub use crate::AccountId;

/// The most delegation links that one call of `delegate` follows.
pub const MAX_DELEGATION_HOPS: u64 = 32;

/// The voting-right state of one participant.
#[derive(Clone, Copy, Debug, PartialEq, Eq, Structural)]
pub struct Voter {
    /// Voting weight: 0 means no right to vote.
    pub weight: u64,
    /// Set once the participant has voted or delegated; never reset.
    pub voted: bool,
    /// The resolved participant this one delegated to.
    pub delegate: Option<AccountId>,
    /// The proposal this participant voted for directly.
    pub vote: Option<usize>,
}

/// The record of a participant that has never been seen.
pub open spec fn absent_voter() -> Voter {
    Voter { weight: 0, voted: false, delegate: None, vote: None }
}

impl Default for Voter {
    fn default() -> (r: Voter)
        ensures
            r == absent_voter(),
    {
        Voter { weight: 0, voted: false, delegate: None, vote: None }
    }
}

impl Voter {
    /// The weight this record still holds toward a future vote.
    pub open spec fn resident(self) -> int {
        if self.voted {
            0
        } else {
            self.weight as int
        }
    }

    /// A record is consistent with a ballot of `n` proposals.
    pub open spec fn consistent(self, n: int) -> bool {
        &&& !self.voted ==> self.delegate is None && self.vote is None
        &&& self.voted ==> (self.delegate is Some) != (self.vote is Some)
        &&& self.vote matches Some(k) ==> k < n
    }
}

/// Why a ballot call was rejected.
#[derive(Clone, Copy, Debug, PartialEq, Eq, Structural)]
pub enum BallotError {
    Unauthorized,
    AlreadyEnfranchised,
    AlreadyVoted,
    SelfDelegation,
    DelegationCycle,
    DelegationChainTooLong,
    NoRight,
    InvalidProposal,
    NoProposals,
}

/// A named proposal and the weight tallied for it.
#[derive(Clone, Debug)]
pub struct Proposal {
    pub name: String,
    pub vote_count: u64,
}

/// The whole ledger: chairperson, participant records and proposals.
pub struct Ballot {
    chair_person: AccountId,
    voters: Vec<(AccountId, Voter)>,
    proposals: Vec<Proposal>,
    granted: u64,
}

/// `props` with `w` more votes tallied for proposal `k`.
pub open spec fn add_votes(props: Seq<Proposal>, k: int, w: int) -> Seq<Proposal> {
    props.update(k, Proposal { name: props[k].name, vote_count: (props[k].vote_count + w) as u64 })
}

impl Ballot {
    /// The identity allowed to grant voting rights.
    pub closed spec fn chairperson(&self) -> AccountId {
        self.chair_person
    }

    /// The record of `id`; a participant never seen has the absent record.
    pub closed spec fn record(&self, id: AccountId) -> Voter {
        lookup(self.voters@, id, absent_voter())
    }

    /// The proposals in order, with their tallies.
    pub closed spec fn proposals(&self) -> Seq<Proposal> {
        self.proposals@
    }

    /// The total weight granted so far, the chairperson's included.
    pub closed spec fn granted(&self) -> int {
        self.granted as int
    }

    /// The weight still held by records that have not voted, delegated weight included.
    pub closed spec fn resident_weight(&self) -> int {
        sum_of(self.voters@.map_values(|e: (AccountId, Voter)| e.1.resident()))
    }

    /// The weight already folded into the proposals' tallies.
    pub open spec fn tallied_weight(&self) -> int {
        sum_of(self.proposals().map_values(|p: Proposal| p.vote_count as int))
    }

    /// The ledger's internal invariant.
    pub closed spec fn wf(&self) -> bool {
        &&& keys_unique(self.voters@)
        &&& forall|id: AccountId| #[trigger]
            self.record(id).consistent(self.proposals@.len() as int)
        &&& self.resident_weight() + self.tallied_weight() == self.granted()
    }


    /// The outcome that `give_right_to_vote(caller, voter)` owes.
    pub open spec fn grant_outcome(&self, caller: AccountId, voter: AccountId) -> Result<(), BallotError> {
        if caller != self.chairperson() {
            Err(BallotError::Unauthorized)
        } else if self.record(voter).voted {
            Err(BallotError::AlreadyVoted)
        } else if self.record(voter).weight != 0 {
            Err(BallotError::AlreadyEnfranchised)
        } else {
            Ok(())
        }
    }

    /// Walks the delegation chain from `to` for at most `hops` links: the first participant
    /// with no delegate, unless the walk meets `caller` or runs out of links.
    pub open spec fn resolve(&self, caller: AccountId, to: AccountId, hops: nat) -> Result<AccountId, BallotError>
        decreases hops,
    {
        if to == caller {
            Err(BallotError::DelegationCycle)
        } else {
            match self.record(to).delegate {
                None => Ok(to),
                Some(next) => if hops == 0 {
                    Err(BallotError::DelegationChainTooLong)
                } else {
                    self.resolve(caller, next, (hops - 1) as nat)
                },
            }
        }
    }

    /// The outcome that `delegate(caller, to)` owes: the resolved target on success.
    pub open spec fn delegate_outcome(&self, caller: AccountId, to: AccountId) -> Result<AccountId, BallotError> {
        if self.record(caller).voted {
            Err(BallotError::AlreadyVoted)
        } else if to == caller {
            Err(BallotError::SelfDelegation)
        } else {
            self.resolve(caller, to, MAX_DELEGATION_HOPS as nat)
        }
    }

    /// The outcome that `vote(caller, proposal)` owes.
    pub open spec fn vote_outcome(&self, caller: AccountId, proposal: i32) -> Result<(), BallotError> {
        if self.record(caller).weight == 0 {
            Err(BallotError::NoRight)
        } else if self.record(caller).voted {
            Err(BallotError::AlreadyVoted)
        } else if proposal < 0 || proposal >= self.proposals().len() {
            Err(BallotError::InvalidProposal)
        } else {
            Ok(())
        }
    }

    /// Every record but those of `a` and `b` is the same in `next`, and so are the
    /// chairperson and the granted total.
    pub open spec fn others_unchanged(&self, next: &Ballot, a: AccountId, b: AccountId) -> bool {
        &&& forall|id: AccountId| id != a && id != b ==> #[trigger] next.record(id) == self.record(id)
        &&& next.chairperson() == self.chairperson()
        &&& next.granted() == self.granted()
    }

    /// What a successful grant to `voter` does.
    pub open spec fn grant_effect(&self, next: &Ballot, voter: AccountId) -> bool {
        &&& next.record(voter) == (Voter { weight: 1, ..self.record(voter) })
        &&& forall|id: AccountId| id != voter ==> #[trigger] next.record(id) == self.record(id)
        &&& next.proposals() == self.proposals()
        &&& next.chairperson() == self.chairperson()
        &&& next.granted() == self.granted() + 1
    }

    /// What a successful delegation of `caller` to the resolved target `t` does.
    pub open spec fn delegate_effect(&self, next: &Ballot, caller: AccountId, t: AccountId) -> bool {
        let c = self.record(caller);
        let d = self.record(t);
        &&& next.record(caller) == (Voter { voted: true, delegate: Some(t), ..c })
        &&& if d.voted {
            &&& next.record(t) == d
            &&& next.proposals() == add_votes(self.proposals(), d.vote->0 as int, c.weight as int)
        } else {
            &&& next.record(t) == (Voter { weight: (d.weight + c.weight) as u64, ..d })
            &&& next.proposals() == self.proposals()
        }
        &&& self.others_unchanged(next, caller, t)
    }

    /// What a successful vote of `caller` for proposal `k` does.
    pub open spec fn vote_effect(&self, next: &Ballot, caller: AccountId, k: int) -> bool {
        let c = self.record(caller);
        &&& next.record(caller) == (Voter { voted: true, vote: Some(k as usize), ..c })
        &&& next.proposals() == add_votes(self.proposals(), k, c.weight as int)
        &&& self.others_unchanged(next, caller, caller)
    }

    /// Proposal `w` has the greatest tally, and no earlier proposal has as much.
    pub open spec fn is_winner(&self, w: int) -> bool {
        let p = self.proposals();
        &&& 0 <= w < p.len()
        &&& forall|j: int| 0 <= j < p.len() ==> #[trigger] p[j].vote_count <= p[w].vote_count
        &&& forall|j: int| 0 <= j < w ==> #[trigger] p[j].vote_count < p[w].vote_count
    }

    /// The winning proposal's index.
    pub open spec fn winner(&self) -> int {
        choose|w: int| self.is_winner(w)
    }

    /// The record of `id`, or the absent record when there is none.
    pub fn get(&self, id: AccountId) -> (r: Voter)
        requires
            self.wf(),
        ensures
            r == self.record(id),
    {
        match find(&self.voters, id) {
            Some(i) => {
                proof {
                    lemma_lookup_at(self.voters@, i as int, absent_voter());
                }
                self.voters[i].1
            },
            None => Voter::default(),
        }
    }

    /// Replaces the record of `id`.
    fn put(&mut self, id: AccountId, v: Voter)
        requires
            keys_unique(old(self).voters@),
        ensures
            keys_unique(final(self).voters@),
            final(self).record(id) == v,
            forall|other: AccountId| other != id ==> final(self).record(other) == old(self).record(other),
            final(self).resident_weight() == old(self).resident_weight() - old(self).record(id).resident()
                + v.resident(),
            final(self).chair_person == old(self).chair_person,
            final(self).proposals == old(self).proposals,
            final(self).granted == old(self).granted,
    {
        let ghost s = self.voters@;
        let ghost f = |e: (AccountId, Voter)| e.1.resident();
        put(&mut self.voters, id, v, Ghost(absent_voter()));
        proof {
            let t = self.voters@;
            if has_key(s, id) {
                let i = choose|i: int| 0 <= i < s.len() && s[i].0 == id && t == s.update(i, (id, v));
                lemma_lookup_at(s, i, absent_voter());
                assert(t.map_values(f) =~= s.map_values(f).update(i, v.resident()));
                lemma_sum_update(s.map_values(f), i, v.resident());
            } else {
                assert(t.map_values(f) =~= s.map_values(f).push(v.resident()));
                lemma_sum_push(s.map_values(f), v.resident());
            }
        }
    }
}

impl Ballot {
    proof fn lemma_resident_bounds(&self, a: AccountId, b: AccountId)
        requires
            self.wf(),
        ensures
            self.resident_weight() >= 0,
            self.record(a).resident() <= self.resident_weight(),
            a != b ==> self.record(a).resident() + self.record(b).resident() <= self.resident_weight(),
    {
        let s = self.voters@;
        let m = s.map_values(|e: (AccountId, Voter)| e.1.resident());
        assert forall|k: int| 0 <= k < m.len() implies m[k] >= 0 by {}
        lemma_sum_nonneg(m);
        let ea = exists|i: int| 0 <= i < s.len() && s[i].0 == a;
        let eb = exists|i: int| 0 <= i < s.len() && s[i].0 == b;
        if ea {
            let i = choose|i: int| 0 <= i < s.len() && s[i].0 == a;
            lemma_lookup_at(s, i, absent_voter());
            if eb {
                let j = choose|j: int| 0 <= j < s.len() && s[j].0 == b;
                lemma_lookup_at(s, j, absent_voter());
                lemma_sum_bounds(m, i, j);
            } else {
                lemma_sum_bounds(m, i, i);
            }
        } else if eb {
            let j = choose|j: int| 0 <= j < s.len() && s[j].0 == b;
            lemma_lookup_at(s, j, absent_voter());
            lemma_sum_bounds(m, j, j);
        }
    }

    proof fn lemma_tally_bound(&self, k: int)
        requires
            0 <= k < self.proposals().len(),
        ensures
            0 <= self.proposals()[k].vote_count <= self.tallied_weight(),
    {
        let m = self.proposals().map_values(|p: Proposal| p.vote_count as int);
        lemma_sum_bounds(m, k, k);
    }

    proof fn lemma_add_votes(&self, k: int, w: int)
        requires
            0 <= k < self.proposals().len(),
            0 <= self.proposals()[k].vote_count + w <= u64::MAX,
        ensures
            sum_of(add_votes(self.proposals(), k, w).map_values(|p: Proposal| p.vote_count as int))
                == self.tallied_weight() + w,
    {
        let f = |p: Proposal| p.vote_count as int;
        let m = self.proposals().map_values(f);
        assert(add_votes(self.proposals(), k, w).map_values(f) =~= m.update(k, m[k] + w));
        lemma_sum_update(m, k, m[k] + w);
    }

    /// A resolved target is never the caller and delegates to nobody.
    pub proof fn lemma_resolved(&self, caller: AccountId, to: AccountId, hops: nat)
        ensures
            self.resolve(caller, to, hops) matches Ok(t) ==> t != caller && self.record(t).delegate is None,
        decreases hops,
    {
        if to != caller {
            if let Some(next) = self.record(to).delegate {
                if hops > 0 {
                    self.lemma_resolved(caller, next, (hops - 1) as nat);
                }
            }
        }
    }

    /// Opens a ballot chaired by `caller`, who gets weight 1, over the named proposals.
    pub fn new(caller: AccountId, proposal_names: Vec<String>) -> (r: Ballot)
        ensures
            r.wf(),
            r.chairperson() == caller,
            r.record(caller) == (Voter { weight: 1, ..absent_voter() }),
            forall|id: AccountId| id != caller ==> #[trigger] r.record(id) == absent_voter(),
            r.proposals().len() == proposal_names@.len(),
            forall|i: int|
                0 <= i < proposal_names@.len() ==> (#[trigger] r.proposals()[i]).name == proposal_names@[i]
                    && r.proposals()[i].vote_count == 0,
            r.granted() == 1,
            r.resident_weight() + r.tallied_weight() == r.granted(),
    {
        let mut proposals: Vec<Proposal> = Vec::new();
        let mut i: usize = 0;
        while i < proposal_names.len()
            invariant
                i <= proposal_names@.len(),
                proposals@.len() == i,
                forall|j: int|
                    0 <= j < i ==> #[trigger] proposals@[j].name == proposal_names@[j]
                        && proposals@[j].vote_count == 0,
                sum_of(proposals@.map_values(|p: Proposal| p.vote_count as int)) == 0,
            decreases proposal_names@.len() - i,
        {
            let ghost before = proposals@;
            proposals.push(Proposal { name: proposal_names[i].clone(), vote_count: 0 });
            proof {
                let f = |p: Proposal| p.vote_count as int;
                assert(proposals@.map_values(f) =~= before.map_values(f).push(0));
                lemma_sum_push(before.map_values(f), 0);
            }
            i = i + 1;
        }
        assert(i == proposal_names@.len());
        let ghost built = proposals@;
        let chair = Voter { weight: 1, voted: false, delegate: None, vote: None };
        let r = Ballot { chair_person: caller, voters: vec![(caller, chair)], proposals, granted: 1 };
        proof {
            let s = r.voters@;
            lemma_lookup_at(s, 0, absent_voter());
            let f = |e: (AccountId, Voter)| e.1.resident();
            assert(s.len() == 1 && s[0] == (caller, chair));
            assert(s.map_values(f).drop_last() =~= Seq::<int>::empty());
            assert(sum_of(Seq::<int>::empty()) == 0);
            assert(r.resident_weight() == 1);
            assert forall|i: int| 0 <= i < proposal_names@.len() implies (#[trigger] r.proposals()[i]).name
                == proposal_names@[i] && r.proposals()[i].vote_count == 0 by {
                assert(r.proposals@[i] == built[i]);
            }
            assert forall|id: AccountId| id != caller implies #[trigger] r.record(id) == absent_voter() by {
                assert(!(exists|k: int| 0 <= k < s.len() && s[k].0 == id));
            }
            assert forall|id: AccountId| #[trigger]
                r.record(id).consistent(r.proposals@.len() as int) by {
                if id != caller {
                    assert(r.record(id) == absent_voter());
                }
            }
        }
        r
    }

    /// The chairperson grants `voter` weight 1.
    pub fn give_right_to_vote(&mut self, caller: AccountId, voter: AccountId) -> (r: Result<(), BallotError>)
        requires
            old(self).wf(),
            old(self).granted() < u64::MAX,
        ensures
            final(self).wf(),
            r == old(self).grant_outcome(caller, voter),
            r is Err ==> *final(self) == *old(self),
            r is Ok ==> old(self).grant_effect(final(self), voter),
            final(self).resident_weight() + final(self).tallied_weight() == final(self).granted(),
    {
        if caller != self.chair_person {
            return Err(BallotError::Unauthorized);
        }
        let mut v = self.get(voter);
        if v.voted {
            return Err(BallotError::AlreadyVoted);
        }
        if v.weight != 0 {
            return Err(BallotError::AlreadyEnfranchised);
        }
        v.weight = 1;
        self.put(voter, v);
        self.granted = self.granted + 1;
        proof {
            let n = self.proposals@.len() as int;
            assert(old(self).record(voter).consistent(n));
            assert forall|id: AccountId| #[trigger] self.record(id).consistent(n) by {
                if id != voter {
                    assert(old(self).record(id).consistent(n));
                }
            }
        }
        Ok(())
    }
    /// `caller` hands its weight to the end of the delegation chain that starts at `to`,
    /// and returns that resolved target.
    pub fn delegate(&mut self, caller: AccountId, to: AccountId) -> (r: Result<AccountId, BallotError>)
        requires
            old(self).wf(),
        ensures
            final(self).wf(),
            r == old(self).delegate_outcome(caller, to),
            r is Err ==> *final(self) == *old(self),
            r matches Ok(t) ==> old(self).delegate_effect(final(self), caller, t),
            final(self).resident_weight() + final(self).tallied_weight() == final(self).granted(),
    {
        let c = self.get(caller);
        if c.voted {
            return Err(BallotError::AlreadyVoted);
        }
        if to == caller {
            return Err(BallotError::SelfDelegation);
        }
        let mut cur = to;
        let mut left: u64 = MAX_DELEGATION_HOPS;
        loop
            invariant
                self.wf(),
                self.resolve(caller, cur, left as nat) == self.delegate_outcome(caller, to),
            ensures
                self.delegate_outcome(caller, to) == Ok::<AccountId, BallotError>(cur),
            decreases left,
        {
            if cur == caller {
                return Err(BallotError::DelegationCycle);
            }
            let d = self.get(cur);
            match d.delegate {
                None => break,
                Some(next) => {
                    if left == 0 {
                        return Err(BallotError::DelegationChainTooLong);
                    }
                    cur = next;
                    left = left - 1;
                },
            }
        }
        let ghost pre = *self;
        let n = self.proposals.len();
        let d = self.get(cur);
        proof {
            self.lemma_resolved(caller, to, MAX_DELEGATION_HOPS as nat);
            self.lemma_resident_bounds(caller, cur);
            assert(d.consistent(n as int));
            lemma_sum_nonneg(self.proposals().map_values(|p: Proposal| p.vote_count as int));
        }
        if d.voted {
            let k = d.vote.unwrap();
            proof {
                self.lemma_tally_bound(k as int);
                self.lemma_add_votes(k as int, c.weight as int);
            }
            self.proposals[k].vote_count = self.proposals[k].vote_count + c.weight;
            assert(self.proposals@ =~= add_votes(pre.proposals@, k as int, c.weight as int));
        } else {
            let mut nd = d;
            nd.weight = d.weight + c.weight;
            self.put(cur, nd);
        }
        let mut nc = c;
        nc.voted = true;
        nc.delegate = Some(cur);
        self.put(caller, nc);
        proof {
            assert(pre.record(caller).consistent(n as int));
            assert forall|id: AccountId| #[trigger] self.record(id).consistent(n as int) by {
                assert(pre.record(id).consistent(n as int));
            }
        }
        Ok(cur)
    }

    /// `caller` casts its whole weight for proposal `proposal`.
    pub fn vote(&mut self, caller: AccountId, proposal: i32) -> (r: Result<(), BallotError>)
        requires
            old(self).wf(),
        ensures
            final(self).wf(),
            r == old(self).vote_outcome(caller, proposal),
            r is Err ==> *final(self) == *old(self),
            r is Ok ==> old(self).vote_effect(final(self), caller, proposal as int),
            final(self).resident_weight() + final(self).tallied_weight() == final(self).granted(),
    {
        let c = self.get(caller);
        if c.weight == 0 {
            return Err(BallotError::NoRight);
        }
        if c.voted {
            return Err(BallotError::AlreadyVoted);
        }
        if proposal < 0 || proposal as usize >= self.proposals.len() {
            return Err(BallotError::InvalidProposal);
        }
        let k = proposal as usize;
        let ghost pre = *self;
        proof {
            self.lemma_resident_bounds(caller, caller);
            self.lemma_tally_bound(k as int);
            self.lemma_add_votes(k as int, c.weight as int);
        }
        self.proposals[k].vote_count = self.proposals[k].vote_count + c.weight;
        assert(self.proposals@ =~= add_votes(pre.proposals@, k as int, c.weight as int));
        let mut nc = c;
        nc.voted = true;
        nc.vote = Some(k);
        self.put(caller, nc);
        proof {
            let n = self.proposals@.len() as int;
            assert(pre.record(caller).consistent(n));
            assert forall|id: AccountId| #[trigger] self.record(id).consistent(n) by {
                assert(pre.record(id).consistent(n));
            }
        }
        Ok(())
    }

    /// Two winners are the same proposal.
    pub proof fn lemma_winner_unique(&self, a: int, b: int)
        requires
            self.is_winner(a),
            self.is_winner(b),
        ensures
            a == b,
    {
        let p = self.proposals();
        if a < b {
            assert(p[a].vote_count < p[b].vote_count);
            assert(p[b].vote_count <= p[a].vote_count);
        } else if b < a {
            assert(p[b].vote_count < p[a].vote_count);
            assert(p[a].vote_count <= p[b].vote_count);
        }
    }

    /// The index of the proposal with the greatest tally, the earliest among equals;
    /// `None` when there are no proposals.
    pub fn winning_proposal(&self) -> (r: Option<usize>)
        ensures
            r is None <==> self.proposals().len() == 0,
            r matches Some(w) ==> self.is_winner(w as int) && w as int == self.winner(),
    {
        let n = self.proposals.len();
        if n == 0 {
            return None;
        }
        let mut best: usize = 0;
        let mut i: usize = 1;
        while i < n
            invariant
                n == self.proposals@.len(),
                best < i <= n,
                forall|j: int| 0 <= j < i ==> #[trigger] self.proposals@[j].vote_count
                    <= self.proposals@[best as int].vote_count,
                forall|j: int| 0 <= j < best ==> #[trigger] self.proposals@[j].vote_count
                    < self.proposals@[best as int].vote_count,
            decreases n - i,
        {
            if self.proposals[i].vote_count > self.proposals[best].vote_count {
                best = i;
            }
            i = i + 1;
        }
        proof {
            assert(self.is_winner(best as int));
            self.lemma_winner_unique(best as int, self.winner());
        }
        Some(best)
    }

    /// The name of the winning proposal; fails with `NoProposals` when there are none.
    pub fn winner_name(&self) -> (r: Result<String, BallotError>)
        ensures
            r is Err <==> self.proposals().len() == 0,
            r matches Err(e) ==> e == BallotError::NoProposals,
            r matches Ok(s) ==> s == self.proposals()[self.winner()].name,
    {
        match self.winning_proposal() {
            None => Err(BallotError::NoProposals),
            Some(w) => Ok(self.proposals[w].name.clone()),
        }
    }
}

impl Ballot {
    /// Weight is never created or destroyed: in every well-formed ledger, the weight held by
    /// records that have not voted (delegated weight included) plus the weight tallied for
    /// the proposals equals the total weight ever granted.
    pub proof fn lemma_weight_conserved(&self)
        requires
            self.wf(),
        ensures
            self.resident_weight() + self.tallied_weight() == self.granted(),
    {
    }

    /// A participant idle after a delegation by `a` was idle before it, and is not `a`.
    proof fn lemma_idle_before(b0: &Ballot, b1: &Ballot, a: AccountId, t: AccountId, x: AccountId)
        requires
            b0.wf(),
            b0.delegate_effect(b1, a, t),
            !b1.record(x).voted,
        ensures
            !b0.record(x).voted,
            x != a,
    {
        if x != a && x != t {
            assert(b1.record(x) == b0.record(x));
        }
    }

    /// When `to` has not voted, a delegation to it resolves to `to` itself.
    proof fn lemma_resolves_to_idle(&self, caller: AccountId, to: AccountId)
        requires
            self.wf(),
            !self.record(to).voted,
            to != caller,
        ensures
            self.resolve(caller, to, MAX_DELEGATION_HOPS as nat) == Ok::<AccountId, BallotError>(to),
    {
        assert(self.record(to).consistent(self.proposals@.len() as int));
    }

    /// Once `a` has delegated to `b`, and while `b` has not voted or delegated, `b` cannot
    /// delegate back to `a`: the walk meets `b` itself.
    pub proof fn lemma_two_cycle_rejected(b0: &Ballot, b1: &Ballot, a: AccountId, b: AccountId)
        requires
            b0.wf(),
            b1.wf(),
            b0.delegate_outcome(a, b) matches Ok(t) && b0.delegate_effect(b1, a, t),
            !b1.record(b).voted,
        ensures
            b1.delegate_outcome(b, a) == Err::<AccountId, BallotError>(BallotError::DelegationCycle),
    {
        let t = b0.delegate_outcome(a, b)->Ok_0;
        Ballot::lemma_idle_before(b0, b1, a, t, b);
        b0.lemma_resolves_to_idle(a, b);
        assert(b1.record(a).delegate == Some(b));
        assert(b1.resolve(b, b, (MAX_DELEGATION_HOPS - 1) as nat) is Err);
    }

    /// Once `a` has delegated to `b` and then `b` to `c`, and while `c` has not voted or
    /// delegated, `c` cannot delegate to `a`: the walk `a`, `b` meets `c` itself.
    pub proof fn lemma_three_cycle_rejected(
        b0: &Ballot,
        b1: &Ballot,
        b2: &Ballot,
        a: AccountId,
        b: AccountId,
        c: AccountId,
    )
        requires
            b0.wf(),
            b1.wf(),
            b2.wf(),
            a != c,
            b0.delegate_outcome(a, b) matches Ok(t) && b0.delegate_effect(b1, a, t),
            b1.delegate_outcome(b, c) matches Ok(t) && b1.delegate_effect(b2, b, t),
            !b2.record(c).voted,
        ensures
            b2.delegate_outcome(c, a) == Err::<AccountId, BallotError>(BallotError::DelegationCycle),
    {
        let t1 = b0.delegate_outcome(a, b)->Ok_0;
        let t2 = b1.delegate_outcome(b, c)->Ok_0;
        Ballot::lemma_idle_before(b1, b2, b, t2, c);
        b1.lemma_resolves_to_idle(b, c);
        assert(!b1.record(b).voted);
        Ballot::lemma_idle_before(b0, b1, a, t1, b);
        b0.lemma_resolves_to_idle(a, b);
        assert(b1.record(a).delegate == Some(b));
        assert(b2.record(a) == b1.record(a));
        assert(b2.record(b).delegate == Some(c));
        assert(b2.resolve(c, c, (MAX_DELEGATION_HOPS - 2) as nat) is Err);
        assert(b2.resolve(c, b, (MAX_DELEGATION_HOPS - 1) as nat) is Err);
    }

    /// After `a` has voted, every further vote or delegation by `a` fails with `AlreadyVoted`.
    pub proof fn lemma_no_second_call_after_vote(
        b0: &Ballot,
        b1: &Ballot,
        a: AccountId,
        p: i32,
        to: AccountId,
        q: i32,
    )
        requires
            b0.vote_outcome(a, p) is Ok && b0.vote_effect(b1, a, p as int),
        ensures
            b1.record(a).voted,
            b1.delegate_outcome(a, to) == Err::<AccountId, BallotError>(BallotError::AlreadyVoted),
            b1.vote_outcome(a, q) == Err::<(), BallotError>(BallotError::AlreadyVoted),
    {
    }

    /// After `a` has delegated, every further delegation by `a` fails with `AlreadyVoted`,
    /// and so does every further vote unless `a` never had weight (then `NoRight`).
    pub proof fn lemma_no_second_call_after_delegate(
        b0: &Ballot,
        b1: &Ballot,
        a: AccountId,
        x: AccountId,
        to: AccountId,
        q: i32,
    )
        requires
            b0.delegate_outcome(a, x) matches Ok(t) && b0.delegate_effect(b1, a, t),
        ensures
            b1.record(a).voted,
            b1.delegate_outcome(a, to) == Err::<AccountId, BallotError>(BallotError::AlreadyVoted),
            b1.vote_outcome(a, q) == Err::<(), BallotError>(
                if b0.record(a).weight == 0 {
                    BallotError::NoRight
                } else {
                    BallotError::AlreadyVoted
                },
            ),
    {
    }

    /// Between proposals `i < j` with equal greatest tallies the winner is never `j`: it is
    /// `i`, or an earlier proposal with as many votes.
    pub proof fn lemma_tie_goes_to_lower(&self, i: int, j: int)
        requires
            0 <= i < j < self.proposals().len(),
            self.proposals()[i].vote_count == self.proposals()[j].vote_count,
            forall|k: int| 0 <= k < self.proposals().len()
                ==> #[trigger] self.proposals()[k].vote_count <= self.proposals()[i].vote_count,
        ensures
            forall|w: int| #[trigger] self.is_winner(w) ==> w <= i,
            (forall|k: int| 0 <= k < i ==> #[trigger] self.proposals()[k].vote_count
                < self.proposals()[i].vote_count) ==> self.is_winner(i),
    {
        assert forall|w: int| #[trigger] self.is_winner(w) implies w <= i by {
            if w > i {
                assert(self.proposals()[i].vote_count < self.proposals()[w].vote_count);
            }
        }
    }
}

impl Ballot {
    /// The chairperson's identity.
    pub fn chair_person(&self) -> (r: AccountId)
        ensures
            r == self.chairperson(),
    {
        self.chair_person
    }

    /// The number of proposals.
    pub fn proposal_count(&self) -> (r: usize)
        ensures
            r == self.proposals().len(),
    {
        self.proposals.len()
    }

    /// The weight tallied for proposal `i`.
    pub fn vote_count(&self, i: usize) -> (r: u64)
        requires
            i < self.proposals().len(),
        ensures
            r == self.proposals()[i as int].vote_count,
    {
        self.proposals[i].vote_count
    }

    /// The name of proposal `i`.
    pub fn proposal_name(&self, i: usize) -> (r: String)
        requires
            i < self.proposals().len(),
        ensures
            r == self.proposals()[i as int].name,
    {
        self.proposals[i].name.clone()
    }

    /// The total weight granted so far, the chairperson's included.
    pub fn total_granted(&self) -> (r: u64)
        ensures
            r == self.granted(),
    {
        self.granted
    }
}

} // verus!
