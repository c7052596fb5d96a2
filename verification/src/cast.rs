//! The vote book: opens vote states under fresh identifiers, records one
//! ballot per voter and vote, and tallies a changed ballot by reverting
//! the standing one before applying the new — never by tallying a voter
//! twice.

use vstd::prelude::*;

use crate::vote::{ThresholdConfig, Vote, VoteOutcome, VoteState, VoterView};

verus! {

/// Why a ballot or a lookup was refused.
#[derive(Clone, Copy, Debug, PartialEq, Eq, Structural)]
pub enum VoteError {
    /// The referenced vote state does not exist
    VoteStateDNE,
    /// Tallying the ballot would push a counter past the numeric range
    SignalOverflow,
}

/// Whether some ballot by `voter` stands on vote `vid`.
pub open spec fn has_ballot(bs: Seq<(u64, u64, Vote)>, vid: u64, voter: u64) -> bool {
    exists|i: int| 0 <= i < bs.len() && bs[i].0 == vid && bs[i].1 == voter
}

/// The index of the ballot by `voter` on vote `vid`.
pub open spec fn ballot_at(bs: Seq<(u64, u64, Vote)>, vid: u64, voter: u64) -> int {
    choose|i: int| 0 <= i < bs.len() && bs[i].0 == vid && bs[i].1 == voter
}

/// The ballot by `voter` on vote `vid`.
pub open spec fn ballot_of(bs: Seq<(u64, u64, Vote)>, vid: u64, voter: u64) -> Vote {
    bs[ballot_at(bs, vid, voter)].2
}

/// What one standing ballot adds to the favor tally of vote `vid`.
pub open spec fn favor_contrib(b: (u64, u64, Vote), vid: u64) -> int {
    if b.0 == vid && b.2.direction is InFavor {
        b.2.magnitude as int
    } else {
        0
    }
}

/// What one standing ballot adds to the against tally of vote `vid`.
pub open spec fn against_contrib(b: (u64, u64, Vote), vid: u64) -> int {
    if b.0 == vid && b.2.direction is Against {
        b.2.magnitude as int
    } else {
        0
    }
}

/// What one standing ballot adds to the turnout of vote `vid`: every
/// direction but an empty one counts.
pub open spec fn turnout_contrib(b: (u64, u64, Vote), vid: u64) -> int {
    if b.0 == vid && !(b.2.direction is NoVote) {
        b.2.magnitude as int
    } else {
        0
    }
}

/// The favor contribution to vote `vid`, as a function of the ballot.
pub open spec fn favor_f(vid: u64) -> spec_fn((u64, u64, Vote)) -> int {
    |b: (u64, u64, Vote)| favor_contrib(b, vid)
}

/// The against contribution to vote `vid`, as a function of the ballot.
pub open spec fn against_f(vid: u64) -> spec_fn((u64, u64, Vote)) -> int {
    |b: (u64, u64, Vote)| against_contrib(b, vid)
}

/// The turnout contribution to vote `vid`, as a function of the ballot.
pub open spec fn turnout_f(vid: u64) -> spec_fn((u64, u64, Vote)) -> int {
    |b: (u64, u64, Vote)| turnout_contrib(b, vid)
}

/// A per-ballot contribution summed over every standing ballot.
pub open spec fn contrib_sum(bs: Seq<(u64, u64, Vote)>, f: spec_fn((u64, u64, Vote)) -> int) -> int
    decreases bs.len(),
{
    if bs.len() == 0 {
        0
    } else {
        contrib_sum(bs.drop_last(), f) + f(bs.last())
    }
}

/// A contribution that is zero on every ballot sums to zero.
proof fn lemma_contrib_sum_zero(bs: Seq<(u64, u64, Vote)>, f: spec_fn((u64, u64, Vote)) -> int)
    requires
        forall|k: int| 0 <= k < bs.len() ==> f(#[trigger] bs[k]) == 0,
    ensures
        contrib_sum(bs, f) == 0,
    decreases bs.len(),
{
    if bs.len() > 0 {
        assert(forall|k: int| 0 <= k < bs.drop_last().len() ==> f(#[trigger] bs.drop_last()[k])
            == 0);
        lemma_contrib_sum_zero(bs.drop_last(), f);
    }
}

/// Appending a ballot adds exactly its contribution to the sum.
proof fn lemma_contrib_sum_push(
    bs: Seq<(u64, u64, Vote)>,
    f: spec_fn((u64, u64, Vote)) -> int,
    b: (u64, u64, Vote),
)
    ensures
        contrib_sum(bs.push(b), f) == contrib_sum(bs, f) + f(b),
{
    assert(bs.push(b).drop_last() == bs);
}

/// Replacing one ballot swaps exactly its contribution in the sum.
proof fn lemma_contrib_sum_update(
    bs: Seq<(u64, u64, Vote)>,
    f: spec_fn((u64, u64, Vote)) -> int,
    j: int,
    b: (u64, u64, Vote),
)
    requires
        0 <= j < bs.len(),
    ensures
        contrib_sum(bs.update(j, b), f) == contrib_sum(bs, f) - f(bs[j]) + f(b),
    decreases bs.len(),
{
    if j == bs.len() - 1 {
        assert(bs.update(j, b).drop_last() == bs.drop_last());
        assert(bs.update(j, b).last() == b);
    } else {
        assert(bs.update(j, b).drop_last() == bs.drop_last().update(j, b));
        assert(bs.update(j, b).last() == bs.last());
        lemma_contrib_sum_update(bs.drop_last(), f, j, b);
    }
}

/// A ballot contributes to at most one directed tally, and whatever it
/// contributes there it also contributes to the turnout: summed over all
/// ballots, the two directed tallies never exceed the turnout.
proof fn lemma_directed_sums_le_turnout(bs: Seq<(u64, u64, Vote)>, vid: u64)
    ensures
        contrib_sum(bs, favor_f(vid)) + contrib_sum(bs, against_f(vid)) <= contrib_sum(
            bs,
            turnout_f(vid),
        ),
    decreases bs.len(),
{
    if bs.len() > 0 {
        lemma_directed_sums_le_turnout(bs.drop_last(), vid);
    }
}

/// In a consistent vote book, abstentions are recoverable: the favor and
/// against tallies of every open vote together never exceed its turnout,
/// the difference being exactly the abstaining magnitude.
pub proof fn lemma_tallies_within_turnout(v: Votes, vid: u64)
    requires
        v.wf(),
        v.consistent(),
        v.spec_has_vote(vid),
    ensures
        v.spec_state_of(vid).in_favor + v.spec_state_of(vid).against <= v.spec_state_of(
            vid,
        ).turnout,
{
    assert(v.states@[vid - 1].0 == vid);
    lemma_directed_sums_le_turnout(v.ballots@, vid);
}

/// The store of open votes: a counter handing out identifiers from one
/// upward, the state under each identifier, and every ballot standing.
#[derive(Clone, Debug, PartialEq, Eq)]
pub struct Votes {
    /// How many votes have been opened
    pub count: u64,
    /// The state under each identifier, in identifier order
    pub states: Vec<(u64, VoteState)>,
    /// One entry per (vote, voter) pair that has a ballot standing
    pub ballots: Vec<(u64, u64, Vote)>,
}

impl Votes {
    /// Well-formedness: identifiers are `1..=count` in order, every ballot
    /// points at an open vote, and no (vote, voter) pair holds two
    /// ballots.
    pub open spec fn wf(self) -> bool {
        &&& self.states@.len() == self.count
        &&& forall|i: int| 0 <= i < self.states@.len() ==> (#[trigger] self.states@[i]).0 == i + 1
        &&& forall|i: int|
            0 <= i < self.ballots@.len() ==> 1 <= (#[trigger] self.ballots@[i]).0 <= self.count
        &&& forall|i: int, j: int|
            0 <= i < j < self.ballots@.len() ==> !((#[trigger] self.ballots@[i]).0
                == (#[trigger] self.ballots@[j]).0 && self.ballots@[i].1 == self.ballots@[j].1)
    }

    /// Consistency of tallies with ballots: the favor, against and
    /// turnout totals under every identifier are exactly the sums of the
    /// ballots standing on it. This is what makes changing and retracting
    /// ballots safe: the tallies never count a voter twice and never keep
    /// a withdrawn magnitude.
    pub open spec fn consistent(self) -> bool {
        forall|i: int|
            0 <= i < self.states@.len() ==> {
                let vid = (#[trigger] self.states@[i]).0;
                self.states@[i].1.in_favor == contrib_sum(self.ballots@, favor_f(vid))
                    && self.states@[i].1.against == contrib_sum(self.ballots@, against_f(vid))
                    && self.states@[i].1.turnout == contrib_sum(self.ballots@, turnout_f(vid))
            }
    }

    /// Whether a vote stands under this identifier.
    pub open spec fn spec_has_vote(self, vid: u64) -> bool {
        1 <= vid <= self.count
    }

    /// The state under an identifier.
    pub open spec fn spec_state_of(self, vid: u64) -> VoteState {
        self.states@[vid - 1].1
    }

    /// An empty vote book.
    pub fn new() -> (r: Votes)
        ensures
            r.wf(),
            r.consistent(),
            r.count == 0,
            r.states@.len() == 0,
            r.ballots@.len() == 0,
    {
        Votes { count: 0, states: Vec::new(), ballots: Vec::new() }
    }

    /// Opens a fresh vote state under the next identifier.
    pub fn open_vote(
        &mut self,
        topic: Option<u32>,
        all_possible_turnout: u64,
        passage_threshold: ThresholdConfig,
        rejection_threshold: Option<ThresholdConfig>,
        initialized: u64,
        expires: Option<u64>,
    ) -> (vote_id: u64)
        requires
            old(self).wf(),
            old(self).count < u64::MAX,
        ensures
            final(self).wf(),
            old(self).consistent() ==> final(self).consistent(),
            vote_id == old(self).count + 1,
            final(self).count == vote_id,
            final(self).ballots@ == old(self).ballots@,
            final(self).states@ == old(self).states@.push(
                (
                    vote_id,
                    VoteState {
                        topic,
                        in_favor: 0u64,
                        against: 0u64,
                        turnout: 0u64,
                        all_possible_turnout,
                        passage_threshold,
                        rejection_threshold,
                        initialized,
                        expires,
                        outcome: VoteOutcome::Voting,
                    },
                ),
            ),
    {
        let vote_id: u64 = self.count + 1;
        let state = VoteState::new(
            topic,
            all_possible_turnout,
            passage_threshold,
            rejection_threshold,
            initialized,
            expires,
        );
        self.states.push((vote_id, state));
        self.count = vote_id;
        proof {
            assert forall|i: int| 0 <= i < self.states@.len() implies (#[trigger] self.states@[i]).0
                == i + 1 by {
                if i < self.states@.len() - 1 {
                    assert(self.states@[i] == old(self).states@[i]);
                }
            }
            if old(self).consistent() {
                let bs = self.ballots@;
                assert forall|k: int|
                    0 <= k < bs.len() implies favor_f(vote_id)(#[trigger] bs[k]) == 0 && against_f(
                    vote_id,
                )(bs[k]) == 0 && turnout_f(vote_id)(bs[k]) == 0 by {
                    assert(bs[k].0 <= old(self).count);
                }
                lemma_contrib_sum_zero(bs, favor_f(vote_id));
                lemma_contrib_sum_zero(bs, against_f(vote_id));
                lemma_contrib_sum_zero(bs, turnout_f(vote_id));
                assert forall|i: int|
                    0 <= i < self.states@.len() implies ({
                    let vid = (#[trigger] self.states@[i]).0;
                    self.states@[i].1.in_favor == contrib_sum(self.ballots@, favor_f(vid))
                        && self.states@[i].1.against == contrib_sum(self.ballots@, against_f(vid))
                        && self.states@[i].1.turnout == contrib_sum(self.ballots@, turnout_f(vid))
                }) by {
                    if i < self.states@.len() - 1 {
                        assert(self.states@[i] == old(self).states@[i]);
                    }
                }
            }
        }
        vote_id
    }

    /// The outcome of the vote under an identifier.
    pub fn outcome_of(&self, vote_id: u64) -> (r: Result<VoteOutcome, VoteError>)
        requires
            self.wf(),
        ensures
            self.spec_has_vote(vote_id) ==> r == Ok::<VoteOutcome, VoteError>(
                self.spec_state_of(vote_id).outcome,
            ),
            !self.spec_has_vote(vote_id) ==> r == Err::<VoteOutcome, VoteError>(
                VoteError::VoteStateDNE,
            ),
    {
        let n: usize = self.states.len();
        if vote_id < 1 || vote_id > (n as u64) {
            return Err(VoteError::VoteStateDNE);
        }
        let idx: usize = (vote_id - 1) as usize;
        Ok(self.states[idx].1.outcome)
    }

    /// A copy of the state under an identifier.
    pub fn vote_state_of(&self, vote_id: u64) -> (r: Result<VoteState, VoteError>)
        requires
            self.wf(),
        ensures
            self.spec_has_vote(vote_id) ==> r == Ok::<VoteState, VoteError>(
                self.spec_state_of(vote_id),
            ),
            !self.spec_has_vote(vote_id) ==> r == Err::<VoteState, VoteError>(
                VoteError::VoteStateDNE,
            ),
    {
        let n: usize = self.states.len();
        if vote_id < 1 || vote_id > (n as u64) {
            return Err(VoteError::VoteStateDNE);
        }
        let idx: usize = (vote_id - 1) as usize;
        Ok(self.states[idx].1)
    }

    /// Records a member's view on an open vote. A first ballot is applied
    /// to the tallies; a changed ballot first reverts the standing one; a
    /// ballot in the direction already standing is a valid no-op. A tally
    /// that would leave the numeric range refuses the ballot and changes
    /// nothing.
    pub fn submit_vote(
        &mut self,
        vote_id: u64,
        voter: u64,
        magnitude: u64,
        direction: VoterView,
        justification: Option<u32>,
    ) -> (r: Result<(), VoteError>)
        requires
            old(self).wf(),
        ensures
            final(self).wf(),
            old(self).consistent() ==> final(self).consistent(),
            final(self).count == old(self).count,
            !old(self).spec_has_vote(vote_id) ==> r == Err::<(), VoteError>(VoteError::VoteStateDNE)
                && *final(self) == *old(self),
            ({
                let bs = old(self).ballots@;
                old(self).spec_has_vote(vote_id) && has_ballot(bs, vote_id, voter) && ballot_of(
                    bs,
                    vote_id,
                    voter,
                ).direction == direction
            }) ==> r == Ok::<(), VoteError>(()) && *final(self) == *old(self),
            ({
                let bs = old(self).ballots@;
                let st = old(self).spec_state_of(vote_id);
                let ob = ballot_of(bs, vote_id, voter);
                let v = Vote { magnitude, direction, justification };
                (old(self).spec_has_vote(vote_id) && has_ballot(bs, vote_id, voter) && ob.direction
                    != direction) ==> if st.can_revert(ob) && st.reverted(ob).can_apply(v) {
                    r == Ok::<(), VoteError>(()) && final(self).states@ == old(self).states@.update(
                        vote_id - 1,
                        (vote_id, st.reverted(ob).applied(v)),
                    ) && final(self).ballots@ == old(self).ballots@.update(
                        ballot_at(bs, vote_id, voter),
                        (vote_id, voter, v),
                    )
                } else {
                    r == Err::<(), VoteError>(VoteError::SignalOverflow) && *final(self) == *old(
                        self,
                    )
                }
            }),
            ({
                let bs = old(self).ballots@;
                let st = old(self).spec_state_of(vote_id);
                let v = Vote { magnitude, direction, justification };
                (old(self).spec_has_vote(vote_id) && !has_ballot(bs, vote_id, voter))
                    ==> if st.can_apply(v) {
                    r == Ok::<(), VoteError>(()) && final(self).states@ == old(self).states@.update(
                        vote_id - 1,
                        (vote_id, st.applied(v)),
                    ) && final(self).ballots@ == old(self).ballots@.push((vote_id, voter, v))
                } else {
                    r == Err::<(), VoteError>(VoteError::SignalOverflow) && *final(self) == *old(
                        self,
                    )
                }
            }),
    {
        let n: usize = self.states.len();
        if vote_id < 1 || vote_id > (n as u64) {
            return Err(VoteError::VoteStateDNE);
        }
        let idx: usize = (vote_id - 1) as usize;
        let new_vote = Vote::new(magnitude, direction, justification);
        let mut found: Option<usize> = None;
        let mut i: usize = 0;
        while i < self.ballots.len()
            invariant
                i <= self.ballots@.len(),
                found is None ==> forall|k: int|
                    0 <= k < i as int ==> !((#[trigger] self.ballots@[k]).0 == vote_id
                        && self.ballots@[k].1 == voter),
                found matches Some(j) ==> j < self.ballots@.len() && self.ballots@[j as int].0
                    == vote_id && self.ballots@[j as int].1 == voter,
            decreases self.ballots@.len() - i,
        {
            if found.is_none() {
                let entry = self.ballots[i];
                if entry.0 == vote_id && entry.1 == voter {
                    found = Some(i);
                }
            }
            i = i + 1;
        }
        match found {
            Some(j) => {
                proof {
                    assert(has_ballot(self.ballots@, vote_id, voter));
                    let c = ballot_at(self.ballots@, vote_id, voter);
                    if c != j as int {
                        assert(false);
                    }
                }
                let old_ballot = self.ballots[j].2;
                if old_ballot.direction == direction {
                    return Ok(());
                }
                let st = self.states[idx].1;
                if !st.may_revert(&old_ballot) {
                    return Err(VoteError::SignalOverflow);
                }
                let reverted = st.revert(old_ballot);
                if !reverted.may_apply(&new_vote) {
                    return Err(VoteError::SignalOverflow);
                }
                let new_state = reverted.apply(new_vote);
                self.states.set(idx, (vote_id, new_state));
                self.ballots.set(j, (vote_id, voter, new_vote));
                proof {
                    assert forall|a: int, b: int|
                        0 <= a < b < self.ballots@.len() implies !((#[trigger] self.ballots@[a]).0
                        == (#[trigger] self.ballots@[b]).0 && self.ballots@[a].1
                        == self.ballots@[b].1) by {
                        if a != j as int && b != j as int {
                            assert(self.ballots@[a] == old(self).ballots@[a]);
                            assert(self.ballots@[b] == old(self).ballots@[b]);
                        }
                    }
                    if old(self).consistent() {
                        let obs = old(self).ballots@;
                        let nb = (vote_id, voter, new_vote);
                        assert forall|i: int|
                            0 <= i < self.states@.len() implies ({
                            let vid = (#[trigger] self.states@[i]).0;
                            self.states@[i].1.in_favor == contrib_sum(self.ballots@, favor_f(vid))
                                && self.states@[i].1.against == contrib_sum(
                                self.ballots@,
                                against_f(vid),
                            ) && self.states@[i].1.turnout == contrib_sum(
                                self.ballots@,
                                turnout_f(vid),
                            )
                        }) by {
                            let vid = self.states@[i].0;
                            lemma_contrib_sum_update(obs, favor_f(vid), j as int, nb);
                            lemma_contrib_sum_update(obs, against_f(vid), j as int, nb);
                            lemma_contrib_sum_update(obs, turnout_f(vid), j as int, nb);
                            if i != idx as int {
                                assert(self.states@[i] == old(self).states@[i]);
                                assert(old(self).states@[i].0 == i + 1);
                            } else {
                                assert(old(self).states@[i].0 == i + 1);
                            }
                        }
                    }
                }
                Ok(())
            },
            None => {
                let st = self.states[idx].1;
                if !st.may_apply(&new_vote) {
                    return Err(VoteError::SignalOverflow);
                }
                let new_state = st.apply(new_vote);
                self.states.set(idx, (vote_id, new_state));
                self.ballots.push((vote_id, voter, new_vote));
                proof {
                    assert forall|a: int, b: int|
                        0 <= a < b < self.ballots@.len() implies !((#[trigger] self.ballots@[a]).0
                        == (#[trigger] self.ballots@[b]).0 && self.ballots@[a].1
                        == self.ballots@[b].1) by {
                        if b == self.ballots@.len() - 1 {
                            assert(self.ballots@[a] == old(self).ballots@[a]);
                        } else {
                            assert(self.ballots@[a] == old(self).ballots@[a]);
                            assert(self.ballots@[b] == old(self).ballots@[b]);
                        }
                    }
                    if old(self).consistent() {
                        let obs = old(self).ballots@;
                        let nb = (vote_id, voter, new_vote);
                        assert forall|i: int|
                            0 <= i < self.states@.len() implies ({
                            let vid = (#[trigger] self.states@[i]).0;
                            self.states@[i].1.in_favor == contrib_sum(self.ballots@, favor_f(vid))
                                && self.states@[i].1.against == contrib_sum(
                                self.ballots@,
                                against_f(vid),
                            ) && self.states@[i].1.turnout == contrib_sum(
                                self.ballots@,
                                turnout_f(vid),
                            )
                        }) by {
                            let vid = self.states@[i].0;
                            lemma_contrib_sum_push(obs, favor_f(vid), nb);
                            lemma_contrib_sum_push(obs, against_f(vid), nb);
                            lemma_contrib_sum_push(obs, turnout_f(vid), nb);
                            if i != idx as int {
                                assert(self.states@[i] == old(self).states@[i]);
                                assert(old(self).states@[i].0 == i + 1);
                            } else {
                                assert(old(self).states@[i].0 == i + 1);
                            }
                        }
                    }
                }
                Ok(())
            },
        }
    }
}

} // verus!
