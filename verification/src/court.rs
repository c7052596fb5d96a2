//! The dispute consumer: a registrant locks an amount behind a dispute
//! type with a resolution path; the named counterparty may raise the
//! dispute, which opens a vote along that path; polling a settled vote
//! executes the resolution exactly once. The court decides; the caller
//! performs the returned transfer through its currency capability.

use vstd::prelude::*;

use crate::cast::Votes;
use crate::org::OrgRep;
use crate::vote::{ThresholdConfig, VoteOutcome, VoteState};

verus! {

/// Why a court operation was refused.
#[derive(Clone, Copy, Debug, PartialEq, Eq, Structural)]
pub enum CourtError {
    /// The locked amount is below the module minimum
    DisputeMustExceedModuleMinimum,
    /// The registrant's free balance does not cover the locked amount
    InsufficientBalance,
    /// No dispute stands under the identifier
    CannotRaiseDisputeIfDisputeStateDNE,
    /// Only the named counterparty may raise the dispute
    SignerNotAuthorizedToRaiseThisDispute,
    /// The dispute was already raised or resolved
    CannotRaiseDisputeFromCurrentState,
    /// No dispute stands under the identifier
    CannotPollDisputeIfDisputeStateDNE,
    /// The dispute has no vote open to poll, or was already resolved
    ActiveDisputeCannotBePolledFromCurrentState,
    /// The vote has not settled, so polling cannot execute anything
    VoteOutcomeInconclusiveSoPollCannotExecuteOutcome,
}

/// The vote a dispute is resolved by: which organization votes, under
/// which passage threshold, and until which block the vote stands open.
#[derive(Clone, Copy, Debug, PartialEq, Eq)]
pub struct VoteCall {
    pub org: OrgRep,
    pub threshold: ThresholdConfig,
    pub duration: Option<u64>,
}

impl VoteCall {
    pub fn new(org: OrgRep, threshold: ThresholdConfig, duration: Option<u64>) -> (r: VoteCall)
        ensures
            r == (VoteCall { org, threshold, duration }),
    {
        VoteCall { org, threshold, duration }
    }
}

/// The resolution path chosen at registration.
#[derive(Clone, Copy, Debug, PartialEq, Eq)]
pub enum VoteMetadata {
    /// Resolution by a share-signal vote
    Signal(VoteCall),
}

/// The organization a resolution path calls on.
pub open spec fn resolution_org(m: VoteMetadata) -> OrgRep {
    match m {
        VoteMetadata::Signal(vc) => vc.org,
    }
}

/// The threshold a resolution path judges the vote against.
pub open spec fn resolution_threshold(m: VoteMetadata) -> ThresholdConfig {
    match m {
        VoteMetadata::Signal(vc) => vc.threshold,
    }
}

/// The expiry block a resolution path gives the vote, if any.
pub open spec fn resolution_duration(m: VoteMetadata) -> Option<u64> {
    match m {
        VoteMetadata::Signal(vc) => vc.duration,
    }
}

/// Where a dispute stands.
#[derive(Clone, Copy, Debug, PartialEq, Eq)]
pub enum DisputeStatus {
    /// Registered; not yet raised
    Registered,
    /// Raised, under the vote with this identifier
    Voting(u64),
    /// Resolved one way or the other
    Resolved,
}

/// One registered dispute: who locked the amount, who may raise it, and
/// the resolution path its vote follows.
#[derive(Clone, Copy, Debug, PartialEq, Eq)]
pub struct Dispute {
    pub id: u64,
    pub registrant: u64,
    pub amount: u64,
    pub counterparty: u64,
    pub resolution: VoteMetadata,
    pub expiry: Option<u64>,
    pub status: DisputeStatus,
}

/// What the court module announces.
#[derive(Clone, Copy, Debug, PartialEq, Eq)]
pub enum RawEvent {
    /// registrant, dispute id, amount, counterparty, org
    RegisteredDisputeWithResolutionPath(u64, u64, u64, u64, OrgRep),
    /// registrant, dispute id, amount, raiser, org, vote id
    DisputeRaisedAndVoteTriggered(u64, u64, u64, u64, OrgRep, u64),
    /// dispute id, amount, counterparty
    DisputeResolved(u64, u64, u64),
    /// dispute id
    DisputeDismissed(u64),
}

/// The last event announced, if any was.
pub fn get_last_event(events: &Vec<RawEvent>) -> (r: Option<RawEvent>)
    ensures
        events@.len() == 0 ==> r is None,
        events@.len() > 0 ==> r == Some(events@.last()),
{
    if events.len() == 0 {
        None
    } else {
        Some(events[events.len() - 1])
    }
}

/// The court module: the minimum dispute amount, every dispute in
/// identifier order, and the event log.
#[derive(Clone, Debug, PartialEq, Eq)]
pub struct Court {
    pub min_dispute_amount: u64,
    pub count: u64,
    pub disputes: Vec<Dispute>,
    pub events: Vec<RawEvent>,
}

impl Court {
    /// Well-formedness: dispute identifiers are `1..=count` in order.
    pub open spec fn wf(self) -> bool {
        &&& self.disputes@.len() == self.count
        &&& forall|i: int| 0 <= i < self.disputes@.len() ==> (#[trigger] self.disputes@[i]).id == i
            + 1
    }

    /// Whether a dispute stands under this identifier.
    pub open spec fn spec_has_dispute(self, id: u64) -> bool {
        1 <= id <= self.count
    }

    /// The dispute under an identifier.
    pub open spec fn spec_dispute_of(self, id: u64) -> Dispute {
        self.disputes@[id - 1]
    }

    /// A fresh court with the given minimum dispute amount.
    pub fn new(min_dispute_amount: u64) -> (r: Court)
        ensures
            r.wf(),
            r.min_dispute_amount == min_dispute_amount,
            r.count == 0,
            r.disputes@.len() == 0,
            r.events@.len() == 0,
    {
        Court { min_dispute_amount, count: 0, disputes: Vec::new(), events: Vec::new() }
    }

    /// Registers a dispute type: the caller locks `amount` (the caller of
    /// this function performs the reserve) against the named
    /// counterparty, under the given resolution path. The amount must
    /// reach the module minimum and be covered by the caller's free
    /// balance.
    pub fn register_dispute_type_with_resolution_path(
        &mut self,
        caller: u64,
        amount: u64,
        counterparty: u64,
        resolution: VoteMetadata,
        expiry: Option<u64>,
        caller_free_balance: u64,
    ) -> (r: Result<u64, CourtError>)
        requires
            old(self).wf(),
            old(self).count < u64::MAX,
        ensures
            final(self).wf(),
            final(self).min_dispute_amount == old(self).min_dispute_amount,
            amount < old(self).min_dispute_amount ==> r == Err::<u64, CourtError>(
                CourtError::DisputeMustExceedModuleMinimum,
            ) && *final(self) == *old(self),
            amount >= old(self).min_dispute_amount && caller_free_balance < amount ==> r == Err::<
                u64,
                CourtError,
            >(CourtError::InsufficientBalance) && *final(self) == *old(self),
            amount >= old(self).min_dispute_amount && caller_free_balance >= amount ==> ({
                let id = (old(self).count + 1) as u64;
                r == Ok::<u64, CourtError>(id) && final(self).count == id
                    && final(self).disputes@ == old(self).disputes@.push(
                    Dispute {
                        id,
                        registrant: caller,
                        amount,
                        counterparty,
                        resolution,
                        expiry,
                        status: DisputeStatus::Registered,
                    },
                ) && final(self).events@ == old(self).events@.push(
                    RawEvent::RegisteredDisputeWithResolutionPath(
                        caller,
                        id,
                        amount,
                        counterparty,
                        resolution_org(resolution),
                    ),
                )
            }),
    {
        if amount < self.min_dispute_amount {
            return Err(CourtError::DisputeMustExceedModuleMinimum);
        }
        if caller_free_balance < amount {
            return Err(CourtError::InsufficientBalance);
        }
        let id: u64 = self.count + 1;
        self.disputes.push(
            Dispute {
                id,
                registrant: caller,
                amount,
                counterparty,
                resolution,
                expiry,
                status: DisputeStatus::Registered,
            },
        );
        self.count = id;
        let org = match &resolution {
            VoteMetadata::Signal(vc) => vc.org,
        };
        self.events.push(
            RawEvent::RegisteredDisputeWithResolutionPath(caller, id, amount, counterparty, org),
        );
        proof {
            assert forall|i: int|
                0 <= i < self.disputes@.len() implies (#[trigger] self.disputes@[i]).id == i
                + 1 by {
                if i < self.disputes@.len() - 1 {
                    assert(self.disputes@[i] == old(self).disputes@[i]);
                }
            }
        }
        Ok(id)
    }

    /// Raises a registered dispute: only the named counterparty may, and
    /// only once. Opens the vote the resolution path describes, over the
    /// given electorate, and leaves the dispute under it.
    pub fn raise_dispute_to_trigger_vote(
        &mut self,
        caller: u64,
        dispute_id: u64,
        votes: &mut Votes,
        all_possible_turnout: u64,
        now: u64,
    ) -> (r: Result<u64, CourtError>)
        requires
            old(self).wf(),
            old(votes).wf(),
            old(votes).count < u64::MAX,
        ensures
            final(self).wf(),
            final(votes).wf(),
            old(votes).consistent() ==> final(votes).consistent(),
            final(self).min_dispute_amount == old(self).min_dispute_amount,
            final(self).count == old(self).count,
            !old(self).spec_has_dispute(dispute_id) ==> r == Err::<u64, CourtError>(
                CourtError::CannotRaiseDisputeIfDisputeStateDNE,
            ) && *final(self) == *old(self) && *final(votes) == *old(votes),
            ({
                let d = old(self).spec_dispute_of(dispute_id);
                (old(self).spec_has_dispute(dispute_id) && caller != d.counterparty) ==> r
                    == Err::<u64, CourtError>(CourtError::SignerNotAuthorizedToRaiseThisDispute)
                    && *final(self) == *old(self) && *final(votes) == *old(votes)
            }),
            ({
                let d = old(self).spec_dispute_of(dispute_id);
                (old(self).spec_has_dispute(dispute_id) && caller == d.counterparty && !(d.status
                    is Registered)) ==> r == Err::<u64, CourtError>(
                    CourtError::CannotRaiseDisputeFromCurrentState,
                ) && *final(self) == *old(self) && *final(votes) == *old(votes)
            }),
            ({
                let d = old(self).spec_dispute_of(dispute_id);
                let vid = (old(votes).count + 1) as u64;
                (old(self).spec_has_dispute(dispute_id) && caller == d.counterparty && d.status
                    is Registered) ==> (r == Ok::<u64, CourtError>(vid) && final(votes).count == vid
                    && final(votes).ballots@ == old(votes).ballots@ && final(votes).states@ == old(
                    votes,
                ).states@.push(
                    (
                        vid,
                        VoteState {
                            topic: None,
                            in_favor: 0u64,
                            against: 0u64,
                            turnout: 0u64,
                            all_possible_turnout,
                            passage_threshold: resolution_threshold(d.resolution),
                            rejection_threshold: None,
                            initialized: now,
                            expires: resolution_duration(d.resolution),
                            outcome: VoteOutcome::Voting,
                        },
                    ),
                ) && final(self).disputes@ == old(self).disputes@.update(
                    dispute_id - 1,
                    Dispute { status: DisputeStatus::Voting(vid), ..d },
                ) && final(self).events@ == old(self).events@.push(
                    RawEvent::DisputeRaisedAndVoteTriggered(
                        d.registrant,
                        dispute_id,
                        d.amount,
                        caller,
                        resolution_org(d.resolution),
                        vid,
                    ),
                ))
            }),
    {
        let n: usize = self.disputes.len();
        if dispute_id < 1 || dispute_id > (n as u64) {
            return Err(CourtError::CannotRaiseDisputeIfDisputeStateDNE);
        }
        let idx: usize = (dispute_id - 1) as usize;
        let d = self.disputes[idx];
        if caller != d.counterparty {
            return Err(CourtError::SignerNotAuthorizedToRaiseThisDispute);
        }
        match d.status {
            DisputeStatus::Registered => {},
            _ => { return Err(CourtError::CannotRaiseDisputeFromCurrentState) },
        }
        let (threshold, duration, org) = match &d.resolution {
            VoteMetadata::Signal(vc) => (vc.threshold, vc.duration, vc.org),
        };
        let vid = votes.open_vote(None, all_possible_turnout, threshold, None, now, duration);
        self.disputes.set(idx, Dispute { status: DisputeStatus::Voting(vid), ..d });
        self.events.push(
            RawEvent::DisputeRaisedAndVoteTriggered(
                d.registrant,
                dispute_id,
                d.amount,
                caller,
                org,
                vid,
            ),
        );
        proof {
            assert forall|i: int|
                0 <= i < self.disputes@.len() implies (#[trigger] self.disputes@[i]).id == i
                + 1 by {
                if i != idx as int {
                    assert(self.disputes@[i] == old(self).disputes@[i]);
                }
            }
        }
        Ok(vid)
    }

    /// Executes a raised dispute once its vote has settled: on approval
    /// the locked amount goes to the counterparty (the returned transfer
    /// is the caller's to perform), on rejection the dispute is dismissed
    /// without effect. Polling before the vote settles, before the
    /// dispute is raised, or after it is resolved is refused.
    pub fn poll_dispute_to_execute_outcome(
        &mut self,
        _caller: u64,
        dispute_id: u64,
        votes: &Votes,
    ) -> (r: Result<Option<(u64, u64)>, CourtError>)
        requires
            old(self).wf(),
            votes.wf(),
        ensures
            final(self).wf(),
            final(self).min_dispute_amount == old(self).min_dispute_amount,
            final(self).count == old(self).count,
            !old(self).spec_has_dispute(dispute_id) ==> r == Err::<Option<(u64, u64)>, CourtError>(
                CourtError::CannotPollDisputeIfDisputeStateDNE,
            ) && *final(self) == *old(self),
            ({
                let d = old(self).spec_dispute_of(dispute_id);
                old(self).spec_has_dispute(dispute_id) ==> match d.status {
                    DisputeStatus::Voting(vid) => {
                        if !votes.spec_has_vote(vid) || votes.spec_state_of(vid).outcome
                            == VoteOutcome::NotStarted || votes.spec_state_of(vid).outcome
                            == VoteOutcome::Voting {
                            r == Err::<Option<(u64, u64)>, CourtError>(
                                CourtError::VoteOutcomeInconclusiveSoPollCannotExecuteOutcome,
                            ) && *final(self) == *old(self)
                        } else if votes.spec_state_of(vid).outcome == VoteOutcome::Approved {
                            r == Ok::<Option<(u64, u64)>, CourtError>(
                                Some((d.counterparty, d.amount)),
                            ) && final(self).disputes@ == old(self).disputes@.update(
                                dispute_id - 1,
                                Dispute { status: DisputeStatus::Resolved, ..d },
                            ) && final(self).events@ == old(self).events@.push(
                                RawEvent::DisputeResolved(dispute_id, d.amount, d.counterparty),
                            )
                        } else {
                            r == Ok::<Option<(u64, u64)>, CourtError>(None) && final(self).disputes@ == old(self).disputes@.update(
                                dispute_id - 1,
                                Dispute { status: DisputeStatus::Resolved, ..d },
                            ) && final(self).events@ == old(self).events@.push(
                                RawEvent::DisputeDismissed(dispute_id),
                            )
                        }
                    },
                    _ => r == Err::<Option<(u64, u64)>, CourtError>(
                        CourtError::ActiveDisputeCannotBePolledFromCurrentState,
                    ) && *final(self) == *old(self),
                }
            }),
    {
        let n: usize = self.disputes.len();
        if dispute_id < 1 || dispute_id > (n as u64) {
            return Err(CourtError::CannotPollDisputeIfDisputeStateDNE);
        }
        let idx: usize = (dispute_id - 1) as usize;
        let d = self.disputes[idx];
        let vid = match d.status {
            DisputeStatus::Voting(vid) => vid,
            _ => { return Err(CourtError::ActiveDisputeCannotBePolledFromCurrentState) },
        };
        let outcome = match votes.outcome_of(vid) {
            Ok(outcome) => outcome,
            Err(_) => {
                return Err(CourtError::VoteOutcomeInconclusiveSoPollCannotExecuteOutcome)
            },
        };
        match outcome {
            VoteOutcome::NotStarted | VoteOutcome::Voting => Err(
                CourtError::VoteOutcomeInconclusiveSoPollCannotExecuteOutcome,
            ),
            VoteOutcome::Approved => {
                self.disputes.set(idx, Dispute { status: DisputeStatus::Resolved, ..d });
                self.events.push(
                    RawEvent::DisputeResolved(dispute_id, d.amount, d.counterparty),
                );
                proof {
                    assert forall|i: int|
                        0 <= i < self.disputes@.len() implies (#[trigger] self.disputes@[i]).id == i
                        + 1 by {
                        if i != idx as int {
                            assert(self.disputes@[i] == old(self).disputes@[i]);
                        }
                    }
                }
                Ok(Some((d.counterparty, d.amount)))
            },
            VoteOutcome::Rejected => {
                self.disputes.set(idx, Dispute { status: DisputeStatus::Resolved, ..d });
                self.events.push(RawEvent::DisputeDismissed(dispute_id));
                proof {
                    assert forall|i: int|
                        0 <= i < self.disputes@.len() implies (#[trigger] self.disputes@[i]).id == i
                        + 1 by {
                        if i != idx as int {
                            assert(self.disputes@[i] == old(self).disputes@[i]);
                        }
                    }
                }
                Ok(None)
            },
        }
    }
}

} // verus!
