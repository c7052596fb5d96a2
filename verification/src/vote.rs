//! The vote state machine: directional ballots with magnitude, threshold
//! configurations, and the tally state that applies and reverts ballots
//! while re-evaluating approval and rejection after every transition.

use vstd::prelude::*;

verus! {

/// The direction a voter chose for a ballot.
#[derive(Clone, Copy, Debug, PartialEq, Eq, Structural)]
pub enum VoterView {
    /// Not yet voted
    NoVote,
    /// Voted in favor
    InFavor,
    /// Voted against
    Against,
    /// Acknowledged but abstained
    Abstain,
}

/// A ballot: direction and magnitude, with an optional justification
/// reference. Immutable once cast; a changed mind produces a new ballot.
#[derive(Clone, Copy, Debug, PartialEq, Eq)]
pub struct Vote {
    pub magnitude: u64,
    pub direction: VoterView,
    pub justification: Option<u32>,
}

impl Vote {
    pub fn new(magnitude: u64, direction: VoterView, justification: Option<u32>) -> (r: Vote)
        ensures
            r == (Vote { magnitude, direction, justification }),
    {
        Vote { magnitude, direction, justification }
    }

    pub fn magnitude(&self) -> (r: u64)
        ensures
            r == self.magnitude,
    {
        self.magnitude
    }

    pub fn direction(&self) -> (r: VoterView)
        ensures
            r == self.direction,
    {
        self.direction
    }

    pub fn justification(&self) -> (r: Option<u32>)
        ensures
            r == self.justification,
    {
        self.justification
    }

    /// A new ballot with the requested direction, or nothing when the
    /// direction is unchanged. Callers must treat the empty result as a
    /// valid no-op, not as an error, and must not tally a second time.
    pub fn set_new_view(&self, new_direction: VoterView, new_justification: Option<u32>) -> (r:
        Option<Vote>)
        ensures
            new_direction == self.direction ==> r is None,
            new_direction != self.direction ==> r == Some(
                Vote {
                    magnitude: self.magnitude,
                    direction: new_direction,
                    justification: new_justification,
                },
            ),
    {
        if self.direction == new_direction {
            None
        } else {
            Some(
                Vote {
                    magnitude: self.magnitude,
                    direction: new_direction,
                    justification: new_justification,
                },
            )
        }
    }
}

/// A passage or rejection requirement: a support bar, and an optional
/// turnout bar. Built only through `new` or `new_support_threshold`, which
/// keep the support bar strictly below any turnout bar.
#[derive(Clone, Copy, Debug, PartialEq, Eq)]
pub struct ThresholdConfig {
    pub support_required: u64,
    pub turnout_required: Option<u64>,
}

impl ThresholdConfig {
    /// Fails exactly when a turnout bar is given and the support bar is not
    /// strictly below it: such a vote could never be won, so the shape is
    /// rejected at construction rather than at runtime.
    pub fn new(support_required: u64, turnout_required: Option<u64>) -> (r: Option<
        ThresholdConfig,
    >)
        ensures
            r is Some <==> match turnout_required {
                Some(t) => support_required < t,
                None => true,
            },
            r matches Some(c) ==> c == (ThresholdConfig { support_required, turnout_required }),
    {
        if let Some(turnout_threshold) = turnout_required {
            if support_required < turnout_threshold {
                Some(ThresholdConfig { support_required, turnout_required })
            } else {
                None
            }
        } else {
            Some(ThresholdConfig { support_required, turnout_required: None })
        }
    }

    pub fn support_threshold(&self) -> (r: u64)
        ensures
            r == self.support_required,
    {
        self.support_required
    }

    pub fn turnout_threshold(&self) -> (r: Option<u64>)
        ensures
            r == self.turnout_required,
    {
        self.turnout_required
    }

    /// A threshold with a support bar only; always well-formed.
    pub fn new_support_threshold(support_required: u64) -> (r: ThresholdConfig)
        ensures
            r == (ThresholdConfig { support_required, turnout_required: None }),
    {
        ThresholdConfig { support_required, turnout_required: None }
    }
}

/// Where a vote stands: not yet open, open, or settled one way.
#[derive(Clone, Copy, Debug, PartialEq, Eq, Structural)]
pub enum VoteOutcome {
    /// Reserved but not yet open for voting
    NotStarted,
    /// Open: ballots are being tallied
    Voting,
    /// Passage threshold met
    Approved,
    /// Rejection threshold met
    Rejected,
}

impl Default for VoteOutcome {
    fn default() -> (r: VoteOutcome)
        ensures
            r == VoteOutcome::NotStarted,
    {
        VoteOutcome::NotStarted
    }
}

/// The tally state of one vote: running totals for favor, against and
/// turnout, the electorate size, the thresholds it is judged against, and
/// the outcome reached so far. Abstentions are carried in `turnout` alone
/// and are recoverable only as `turnout - in_favor - against`.
#[derive(Clone, Copy, Debug, PartialEq, Eq)]
pub struct VoteState {
    /// Optional reference to the subject under vote
    pub topic: Option<u32>,
    /// Total magnitude in favor
    pub in_favor: u64,
    /// Total magnitude against
    pub against: u64,
    /// Total magnitude of every ballot cast, abstentions included
    pub turnout: u64,
    /// Total magnitude that could vote
    pub all_possible_turnout: u64,
    /// Requirement for passage
    pub passage_threshold: ThresholdConfig,
    /// Optional requirement for rejection
    pub rejection_threshold: Option<ThresholdConfig>,
    /// Block at which this state was initialized
    pub initialized: u64,
    /// Block at which this state expires, if any
    pub expires: Option<u64>,
    /// The outcome reached so far
    pub outcome: VoteOutcome,
}

impl VoteState {
    /// The passage condition: support strictly above the support bar, and,
    /// where a turnout bar is set, turnout strictly below it.
    pub open spec fn approval_met(self) -> bool {
        &&& self.in_favor > self.passage_threshold.support_required
        &&& match self.passage_threshold.turnout_required {
            Some(t) => t > self.turnout,
            None => true,
        }
    }

    /// The rejection check: nothing when no rejection threshold is set
    /// (vacuously not rejected), else whether the against-tally is strictly
    /// above the rejection support bar with turnout strictly below any
    /// rejection turnout bar.
    pub open spec fn rejection_check(self) -> Option<bool> {
        match self.rejection_threshold {
            Some(rt) => Some(
                self.against > rt.support_required && match rt.turnout_required {
                    Some(t) => t > self.turnout,
                    None => true,
                },
            ),
            None => None,
        }
    }

    /// Whether the rejection check comes out affirmative.
    pub open spec fn rejection_met(self) -> bool {
        self.rejection_check() == Some(true)
    }

    /// Neither threshold condition holds of the current tallies.
    pub open spec fn undecided(self) -> bool {
        !self.approval_met() && !self.rejection_met()
    }

    /// The outcome re-evaluation made after every transition: approval is
    /// checked first and wins where both conditions hold; otherwise the
    /// outcome already reached is kept.
    pub open spec fn settled(self) -> VoteState {
        if self.approval_met() {
            VoteState { outcome: VoteOutcome::Approved, ..self }
        } else if self.rejection_met() {
            VoteState { outcome: VoteOutcome::Rejected, ..self }
        } else {
            self
        }
    }

    /// The tallies after adding a ballot, before outcome re-evaluation.
    pub open spec fn cast_add(self, v: Vote) -> VoteState {
        match v.direction {
            VoterView::InFavor => VoteState {
                in_favor: (self.in_favor + v.magnitude) as u64,
                turnout: (self.turnout + v.magnitude) as u64,
                ..self
            },
            VoterView::Against => VoteState {
                against: (self.against + v.magnitude) as u64,
                turnout: (self.turnout + v.magnitude) as u64,
                ..self
            },
            VoterView::Abstain => VoteState { turnout: (self.turnout + v.magnitude) as u64, ..self },
            VoterView::NoVote => self,
        }
    }

    /// The tallies after subtracting a ballot, before outcome re-evaluation.
    pub open spec fn cast_remove(self, v: Vote) -> VoteState {
        match v.direction {
            VoterView::InFavor => VoteState {
                in_favor: (self.in_favor - v.magnitude) as u64,
                turnout: (self.turnout - v.magnitude) as u64,
                ..self
            },
            VoterView::Against => VoteState {
                against: (self.against - v.magnitude) as u64,
                turnout: (self.turnout - v.magnitude) as u64,
                ..self
            },
            VoterView::Abstain => VoteState { turnout: (self.turnout - v.magnitude) as u64, ..self },
            VoterView::NoVote => self,
        }
    }

    /// What `apply` returns.
    pub open spec fn applied(self, v: Vote) -> VoteState {
        self.cast_add(v).settled()
    }

    /// What `revert` returns.
    pub open spec fn reverted(self, v: Vote) -> VoteState {
        self.cast_remove(v).settled()
    }

    /// The tallies a ballot touches stay within the numeric range.
    pub open spec fn can_apply(self, v: Vote) -> bool {
        match v.direction {
            VoterView::InFavor => self.in_favor + v.magnitude <= u64::MAX && self.turnout
                + v.magnitude <= u64::MAX,
            VoterView::Against => self.against + v.magnitude <= u64::MAX && self.turnout
                + v.magnitude <= u64::MAX,
            VoterView::Abstain => self.turnout + v.magnitude <= u64::MAX,
            VoterView::NoVote => true,
        }
    }

    /// The tallies a ballot touches hold at least its magnitude.
    pub open spec fn can_revert(self, v: Vote) -> bool {
        match v.direction {
            VoterView::InFavor => self.in_favor >= v.magnitude && self.turnout >= v.magnitude,
            VoterView::Against => self.against >= v.magnitude && self.turnout >= v.magnitude,
            VoterView::Abstain => self.turnout >= v.magnitude,
            VoterView::NoVote => true,
        }
    }

    /// A fresh state, open for voting from the start.
    pub fn new(
        topic: Option<u32>,
        all_possible_turnout: u64,
        passage_threshold: ThresholdConfig,
        rejection_threshold: Option<ThresholdConfig>,
        initialized: u64,
        expires: Option<u64>,
    ) -> (r: VoteState)
        ensures
            r == (VoteState {
                topic,
                in_favor: 0u64,
                against: 0u64,
                turnout: 0u64,
                all_possible_turnout,
                passage_threshold,
                rejection_threshold,
                initialized,
                expires,
                outcome: VoteOutcome::Voting,
            }),
    {
        VoteState {
            topic,
            in_favor: 0,
            against: 0,
            turnout: 0,
            all_possible_turnout,
            passage_threshold,
            rejection_threshold,
            initialized,
            expires,
            outcome: VoteOutcome::Voting,
        }
    }

    /// A fresh state whose support bar is the whole electorate. Passage
    /// asks for support strictly above the bar, so any dissent or absence
    /// withholds passage for good: unanimous consent read at its
    /// strictest.
    pub fn new_unanimous_consent(
        topic: Option<u32>,
        all_possible_turnout: u64,
        initialized: u64,
        expires: Option<u64>,
    ) -> (r: VoteState)
        ensures
            r == (VoteState {
                topic,
                in_favor: 0u64,
                against: 0u64,
                turnout: 0u64,
                all_possible_turnout,
                passage_threshold: ThresholdConfig {
                    support_required: all_possible_turnout,
                    turnout_required: None,
                },
                rejection_threshold: None,
                initialized,
                expires,
                outcome: VoteOutcome::Voting,
            }),
    {
        let unanimous_passage_threshold = ThresholdConfig::new_support_threshold(
            all_possible_turnout,
        );
        VoteState {
            topic,
            in_favor: 0,
            against: 0,
            turnout: 0,
            all_possible_turnout,
            passage_threshold: unanimous_passage_threshold,
            rejection_threshold: None,
            initialized,
            expires,
            outcome: VoteOutcome::Voting,
        }
    }

    pub fn topic(&self) -> (r: Option<u32>)
        ensures
            r == self.topic,
    {
        self.topic
    }

    pub fn in_favor(&self) -> (r: u64)
        ensures
            r == self.in_favor,
    {
        self.in_favor
    }

    pub fn against(&self) -> (r: u64)
        ensures
            r == self.against,
    {
        self.against
    }

    pub fn turnout(&self) -> (r: u64)
        ensures
            r == self.turnout,
    {
        self.turnout
    }

    pub fn all_possible_turnout(&self) -> (r: u64)
        ensures
            r == self.all_possible_turnout,
    {
        self.all_possible_turnout
    }

    pub fn expires(&self) -> (r: Option<u64>)
        ensures
            r == self.expires,
    {
        self.expires
    }

    pub fn passage_threshold(&self) -> (r: ThresholdConfig)
        ensures
            r == self.passage_threshold,
    {
        self.passage_threshold
    }

    pub fn rejection_threshold(&self) -> (r: Option<ThresholdConfig>)
        ensures
            r == self.rejection_threshold,
    {
        self.rejection_threshold
    }

    pub fn outcome(&self) -> (r: VoteOutcome)
        ensures
            r == self.outcome,
    {
        self.outcome
    }

    /// Adds a ballot's magnitude to the favor tally and the turnout,
    /// leaving the outcome untouched.
    pub fn add_in_favor_vote(&self, magnitude: u64) -> (r: VoteState)
        requires
            self.in_favor + magnitude <= u64::MAX,
            self.turnout + magnitude <= u64::MAX,
        ensures
            r == (VoteState {
                in_favor: (self.in_favor + magnitude) as u64,
                turnout: (self.turnout + magnitude) as u64,
                ..*self
            }),
    {
        let new_turnout: u64 = self.turnout + magnitude;
        let new_in_favor: u64 = self.in_favor + magnitude;
        VoteState { in_favor: new_in_favor, turnout: new_turnout, ..*self }
    }

    /// Adds a ballot's magnitude to the against tally and the turnout.
    pub fn add_against_vote(&self, magnitude: u64) -> (r: VoteState)
        requires
            self.against + magnitude <= u64::MAX,
            self.turnout + magnitude <= u64::MAX,
        ensures
            r == (VoteState {
                against: (self.against + magnitude) as u64,
                turnout: (self.turnout + magnitude) as u64,
                ..*self
            }),
    {
        let new_turnout: u64 = self.turnout + magnitude;
        let new_against: u64 = self.against + magnitude;
        VoteState { against: new_against, turnout: new_turnout, ..*self }
    }

    /// An abstention raises the turnout alone: no separate counter exists.
    pub fn add_abstention(&self, magnitude: u64) -> (r: VoteState)
        requires
            self.turnout + magnitude <= u64::MAX,
        ensures
            r == (VoteState { turnout: (self.turnout + magnitude) as u64, ..*self }),
    {
        let new_turnout: u64 = self.turnout + magnitude;
        VoteState { turnout: new_turnout, ..*self }
    }

    /// Subtracts a ballot's magnitude from the favor tally and the turnout.
    pub fn remove_in_favor_vote(&self, magnitude: u64) -> (r: VoteState)
        requires
            self.in_favor >= magnitude,
            self.turnout >= magnitude,
        ensures
            r == (VoteState {
                in_favor: (self.in_favor - magnitude) as u64,
                turnout: (self.turnout - magnitude) as u64,
                ..*self
            }),
    {
        let new_turnout: u64 = self.turnout - magnitude;
        let new_in_favor: u64 = self.in_favor - magnitude;
        VoteState { in_favor: new_in_favor, turnout: new_turnout, ..*self }
    }

    /// Subtracts a ballot's magnitude from the against tally and the turnout.
    pub fn remove_against_vote(&self, magnitude: u64) -> (r: VoteState)
        requires
            self.against >= magnitude,
            self.turnout >= magnitude,
        ensures
            r == (VoteState {
                against: (self.against - magnitude) as u64,
                turnout: (self.turnout - magnitude) as u64,
                ..*self
            }),
    {
        let new_turnout: u64 = self.turnout - magnitude;
        let new_against: u64 = self.against - magnitude;
        VoteState { against: new_against, turnout: new_turnout, ..*self }
    }

    /// Subtracts an abstention from the turnout alone.
    pub fn remove_abstention(&self, magnitude: u64) -> (r: VoteState)
        requires
            self.turnout >= magnitude,
        ensures
            r == (VoteState { turnout: (self.turnout - magnitude) as u64, ..*self }),
    {
        let new_turnout: u64 = self.turnout - magnitude;
        VoteState { turnout: new_turnout, ..*self }
    }

    /// Zeroes every tally and points the state at a new topic: prior
    /// ballots concerned a different subject and are invalidated.
    pub fn update_topic_and_clear_state(&self, new_topic: u32) -> (r: VoteState)
        ensures
            r == (VoteState {
                in_favor: 0u64,
                against: 0u64,
                turnout: 0u64,
                topic: Some(new_topic),
                ..*self
            }),
    {
        VoteState { in_favor: 0, against: 0, turnout: 0, topic: Some(new_topic), ..*self }
    }

    /// Changes the topic while keeping every tally: a metadata-only
    /// amendment.
    pub fn update_topic_without_clearing_state(&self, new_topic: u32) -> (r: VoteState)
        ensures
            r == (VoteState { topic: Some(new_topic), ..*self }),
    {
        VoteState { topic: Some(new_topic), ..*self }
    }

    fn set_outcome(&self, new_outcome: VoteOutcome) -> (r: VoteState)
        ensures
            r == (VoteState { outcome: new_outcome, ..*self }),
    {
        VoteState { outcome: new_outcome, ..*self }
    }

    /// Whether the current tallies meet the passage threshold. Support must
    /// be strictly above the support bar: a tally equal to the bar does not
    /// approve.
    pub fn approved(&self) -> (r: bool)
        ensures
            r == self.approval_met(),
    {
        self.in_favor > self.passage_threshold.support_required && {
            if let Some(turnout_threshold) = self.passage_threshold.turnout_required {
                turnout_threshold > self.turnout
            } else {
                true
            }
        }
    }

    /// The rejection check, or nothing when no rejection threshold is set.
    pub fn rejected(&self) -> (r: Option<bool>)
        ensures
            r == self.rejection_check(),
    {
        if let Some(rejection_threshold_set) = self.rejection_threshold {
            Some(
                self.against > rejection_threshold_set.support_required && {
                    if let Some(turnout_threshold) = rejection_threshold_set.turnout_required {
                        turnout_threshold > self.turnout
                    } else {
                        true
                    }
                },
            )
        } else {
            None
        }
    }

    /// Whether tallying this ballot stays within the numeric range, so
    /// that `apply` may be called.
    pub fn may_apply(&self, vote: &Vote) -> (r: bool)
        ensures
            r == self.can_apply(*vote),
    {
        match vote.direction {
            VoterView::InFavor => vote.magnitude <= u64::MAX - self.in_favor && vote.magnitude
                <= u64::MAX - self.turnout,
            VoterView::Against => vote.magnitude <= u64::MAX - self.against && vote.magnitude
                <= u64::MAX - self.turnout,
            VoterView::Abstain => vote.magnitude <= u64::MAX - self.turnout,
            VoterView::NoVote => true,
        }
    }

    /// Whether the tallies this ballot touches hold at least its
    /// magnitude, so that `revert` may be called.
    pub fn may_revert(&self, vote: &Vote) -> (r: bool)
        ensures
            r == self.can_revert(*vote),
    {
        match vote.direction {
            VoterView::InFavor => self.in_favor >= vote.magnitude && self.turnout >= vote.magnitude,
            VoterView::Against => self.against >= vote.magnitude && self.turnout >= vote.magnitude,
            VoterView::Abstain => self.turnout >= vote.magnitude,
            VoterView::NoVote => true,
        }
    }

    /// Tallies the ballot by its direction, then re-evaluates the outcome:
    /// approval is checked before rejection and wins where both hold;
    /// where neither holds the outcome already reached is kept.
    pub fn apply(&self, vote: Vote) -> (r: VoteState)
        requires
            self.can_apply(vote),
        ensures
            r == self.applied(vote),
    {
        let new_vote_state = match vote.direction {
            VoterView::InFavor => self.add_in_favor_vote(vote.magnitude),
            VoterView::Against => self.add_against_vote(vote.magnitude),
            VoterView::Abstain => self.add_abstention(vote.magnitude),
            VoterView::NoVote => *self,
        };
        let rejected: bool = match new_vote_state.rejected() {
            Some(rejection_outcome) => rejection_outcome,
            None => false,
        };
        if new_vote_state.approved() {
            new_vote_state.set_outcome(VoteOutcome::Approved)
        } else if rejected {
            new_vote_state.set_outcome(VoteOutcome::Rejected)
        } else {
            new_vote_state
        }
    }

    /// The symmetric inverse of `apply`: subtracts the ballot from the same
    /// counters its application added to, then re-evaluates the outcome
    /// under the same precedence rule. Lets a consumer retract a ballot
    /// before applying a changed one. Nothing blocks transitions after a
    /// settled outcome: tallies keep adjusting and the outcome, once
    /// approved or rejected, is never unset — the round-trip law therefore
    /// speaks only of runs that never settle.
    pub fn revert(&self, vote: Vote) -> (r: VoteState)
        requires
            self.can_revert(vote),
        ensures
            r == self.reverted(vote),
    {
        let new_vote_state = match vote.direction {
            VoterView::InFavor => self.remove_in_favor_vote(vote.magnitude),
            VoterView::Against => self.remove_against_vote(vote.magnitude),
            VoterView::Abstain => self.remove_abstention(vote.magnitude),
            VoterView::NoVote => *self,
        };
        let rejected: bool = match new_vote_state.rejected() {
            Some(rejection_outcome) => rejection_outcome,
            None => false,
        };
        if new_vote_state.approved() {
            new_vote_state.set_outcome(VoteOutcome::Approved)
        } else if rejected {
            new_vote_state.set_outcome(VoteOutcome::Rejected)
        } else {
            new_vote_state
        }
    }
}

impl VoteState {
    /// The state after applying a whole sequence of ballots in order.
    pub open spec fn applied_all(self, votes: Seq<Vote>) -> VoteState
        decreases votes.len(),
    {
        if votes.len() == 0 {
            self
        } else {
            self.applied(votes[0]).applied_all(votes.skip(1))
        }
    }

    /// The state after reverting a whole sequence of ballots in the
    /// reverse of the order they were applied in.
    pub open spec fn reverted_all(self, votes: Seq<Vote>) -> VoteState
        decreases votes.len(),
    {
        if votes.len() == 0 {
            self
        } else {
            self.reverted_all(votes.skip(1)).reverted(votes[0])
        }
    }

    /// Every ballot of the sequence stays within the numeric range when
    /// applied in order from this state.
    pub open spec fn can_apply_all(self, votes: Seq<Vote>) -> bool
        decreases votes.len(),
    {
        if votes.len() == 0 {
            true
        } else {
            self.can_apply(votes[0]) && self.applied(votes[0]).can_apply_all(votes.skip(1))
        }
    }

    /// No state reached while applying the sequence in order from this
    /// state — this one included — meets either threshold condition.
    pub open spec fn undecided_throughout(self, votes: Seq<Vote>) -> bool
        decreases votes.len(),
    {
        if votes.len() == 0 {
            self.undecided()
        } else {
            self.undecided() && self.applied(votes[0]).undecided_throughout(votes.skip(1))
        }
    }
}

/// Applying a ballot and then reverting it restores every tally, whatever
/// the intermediate outcome did.
pub proof fn lemma_apply_then_revert_restores_tallies(s: VoteState, v: Vote)
    requires
        s.can_apply(v),
    ensures
        s.applied(v).can_revert(v),
        s.applied(v).reverted(v).in_favor == s.in_favor,
        s.applied(v).reverted(v).against == s.against,
        s.applied(v).reverted(v).turnout == s.turnout,
{
}

/// Apply then revert of one ballot is the identity on the whole state,
/// provided neither the state before nor the tallies after the ballot meet
/// a threshold condition: the outcome then stays as it was, and the
/// subtraction undoes the addition exactly.
pub proof fn lemma_apply_then_revert_identity(s: VoteState, v: Vote)
    requires
        s.can_apply(v),
        s.undecided(),
        s.cast_add(v).undecided(),
    ensures
        s.applied(v).reverted(v) == s,
{
    let c = s.cast_add(v);
    assert(c.settled() == c);
    assert(c.cast_remove(v) == s);
}

/// The round-trip law: a sequence of ballots applied to a state and then
/// reverted in reverse order restores the state exactly, provided no state
/// along the way meets a threshold condition (once a terminal outcome has
/// been crossed, reverting is not answered for).
pub proof fn lemma_round_trip(s: VoteState, votes: Seq<Vote>)
    requires
        s.can_apply_all(votes),
        s.undecided_throughout(votes),
    ensures
        s.applied_all(votes).reverted_all(votes) == s,
    decreases votes.len(),
{
    if votes.len() > 0 {
        let v0 = votes[0];
        let rest = votes.skip(1);
        let s1 = s.applied(v0);
        lemma_round_trip(s1, rest);
        assert(s.applied_all(votes).reverted_all(rest) == s1);
        assert(s1.undecided()) by {
            reveal_with_fuel(VoteState::undecided_throughout, 2);
        }
        assert(s.cast_add(v0).undecided());
        lemma_apply_then_revert_identity(s, v0);
    }
}

/// Approval needs a strict majority over the support bar: tallies whose
/// favor total only equals the bar do not meet the passage condition.
pub proof fn lemma_no_approval_at_support_bar(s: VoteState)
    requires
        s.in_favor == s.passage_threshold.support_required,
    ensures
        !s.approval_met(),
{
}

/// A ballot that brings the favor tally exactly to the support bar does
/// not set the outcome to approved.
pub proof fn lemma_apply_at_support_bar_does_not_approve(s: VoteState, v: Vote)
    requires
        s.can_apply(v),
        s.cast_add(v).in_favor == s.passage_threshold.support_required,
        s.outcome != VoteOutcome::Approved,
    ensures
        s.applied(v).outcome != VoteOutcome::Approved,
{
}

impl Default for VoteState {
    /// The empty state: no topic, zero tallies, default thresholds, not yet
    /// started.
    fn default() -> (r: VoteState)
        ensures
            r == (VoteState {
                topic: None,
                in_favor: 0u64,
                against: 0u64,
                turnout: 0u64,
                all_possible_turnout: 0u64,
                passage_threshold: ThresholdConfig {
                    support_required: 0u64,
                    turnout_required: None,
                },
                rejection_threshold: None,
                initialized: 0u64,
                expires: None,
                outcome: VoteOutcome::NotStarted,
            }),
    {
        VoteState {
            topic: None,
            in_favor: 0,
            against: 0,
            turnout: 0,
            all_possible_turnout: 0,
            passage_threshold: ThresholdConfig { support_required: 0, turnout_required: None },
            rejection_threshold: None,
            initialized: 0,
            expires: None,
            outcome: VoteOutcome::NotStarted,
        }
    }
}

} // verus!
