//! The treasury consumer: org bank accounts opened against a module
//! minimum deposit, spend proposals put to a share-weighted vote, and
//! execution of an approved spend exactly once. The bank decides; the
//! caller performs the returned transfer through its currency capability.

use vstd::prelude::*;

use crate::cast::Votes;
use crate::vote::{ThresholdConfig, VoteOutcome, VoteState};

verus! {

/// Why a bank operation was refused.
#[derive(Clone, Copy, Debug, PartialEq, Eq, Structural)]
pub enum BankError {
    /// The caller is no member of the hosting organization
    NotPermittedToOpenBankAccountForOrg,
    /// The opening deposit is below the module minimum
    CannotOpenBankAccountIfDepositIsBelowModuleMinimum,
    /// No bank stands under the identifier to spend from
    BankMustExistToProposeSpendFrom,
    /// No spend proposal stands under the identifier pair
    CannotTriggerVoteForSpendThatDNE,
    /// The proposal is not awaiting a vote trigger
    CannotTriggerVoteFromCurrentSpendState,
    /// No spend proposal stands under the identifier pair
    CannotPollSpendThatDNE,
    /// The proposal is not in a pollable state, or was already resolved
    SpendProposalCannotBePolledFromCurrentState,
    /// The vote has not settled, so polling cannot execute anything
    VoteOutcomeInconclusiveSoPollCannotExecuteSpend,
    /// The bank's balance does not cover the approved spend
    NotEnoughFundsInBankToExecuteSpend,
    /// No spend proposal stands under the identifier pair
    CannotApproveSpendThatDNE,
    /// The proposal was already resolved
    CannotApproveSpendFromCurrentState,
}

/// The identifier pair of a spend proposal: which bank, and which
/// proposal of that bank.
#[derive(Clone, Copy, Debug, PartialEq, Eq, Structural)]
pub struct BankSpend {
    pub bank: u64,
    pub spend: u64,
}

impl BankSpend {
    pub fn new(bank: u64, spend: u64) -> (r: BankSpend)
        ensures
            r == (BankSpend { bank, spend }),
    {
        BankSpend { bank, spend }
    }
}

/// Where a spend proposal stands.
#[derive(Clone, Copy, Debug, PartialEq, Eq, Structural)]
pub enum SpendState {
    /// Proposed; no vote opened yet
    Proposed,
    /// Under the vote with this identifier
    Voting(u64),
    /// Approved and paid out
    Executed,
    /// Rejected and discarded without effect
    Discarded,
}

/// One proposal to pay an amount from a bank to a recipient.
#[derive(Clone, Copy, Debug, PartialEq, Eq, Structural)]
pub struct SpendProposal {
    pub bank: u64,
    pub spend: u64,
    pub amount: u64,
    pub recipient: u64,
    pub state: SpendState,
}

/// One org treasury: its hosting organization, what it holds, an
/// optional operator, and how many spends it has numbered.
#[derive(Clone, Copy, Debug, PartialEq, Eq, Structural)]
pub struct BankAccount {
    pub id: u64,
    pub org: u64,
    pub balance: u64,
    pub operator: Option<u64>,
    pub spend_count: u64,
}

/// What the bank module announces.
#[derive(Clone, Copy, Debug, PartialEq, Eq, Structural)]
pub enum RawEvent {
    /// caller, bank id, deposit, hosting org, operator
    BankAccountOpened(u64, u64, u64, u64, Option<u64>),
    /// bank id, spend id, amount, recipient
    SpendProposed(u64, u64, u64, u64),
    /// bank id, spend id, vote id
    VoteTriggeredOnSpendProposal(u64, u64, u64),
    /// bank id, spend id, amount, recipient
    SpendExecuted(u64, u64, u64, u64),
    /// bank id, spend id
    SpendDiscarded(u64, u64),
}

/// The last event announced, if any was.
pub fn get_last_event(events: &Vec<RawEvent>) -> (r: Option<RawEvent>)
    ensures
        events@.len() == 0 ==> r is None,
        events@.len() > 0 ==> r == Some(events@.last()),
{
    if events.len() == 0 {
        None
    } else {
        Some(events[events.len() - 1])
    }
}

/// Whether a proposal stands under the identifier pair.
pub open spec fn has_spend(s: Seq<SpendProposal>, bank: u64, spend: u64) -> bool {
    exists|i: int| 0 <= i < s.len() && s[i].bank == bank && s[i].spend == spend
}

/// The index of the proposal under the identifier pair.
pub open spec fn spend_at(s: Seq<SpendProposal>, bank: u64, spend: u64) -> int {
    choose|i: int| 0 <= i < s.len() && s[i].bank == bank && s[i].spend == spend
}

/// The proposal under the identifier pair.
pub open spec fn spend_of(s: Seq<SpendProposal>, bank: u64, spend: u64) -> SpendProposal {
    s[spend_at(s, bank, spend)]
}

/// The bank module: the minimum opening deposit, every bank account in
/// identifier order, every spend proposal, and the event log.
#[derive(Clone, Debug, PartialEq, Eq)]
pub struct Bank {
    pub min_deposit: u64,
    pub bank_count: u32,
    pub banks: Vec<BankAccount>,
    pub spends: Vec<SpendProposal>,
    pub events: Vec<RawEvent>,
}

impl Bank {
    /// Well-formedness: bank identifiers are `1..=bank_count` in order,
    /// every proposal points at a standing bank and a spend number that
    /// bank has handed out, and no identifier pair holds two proposals.
    pub open spec fn wf(self) -> bool {
        &&& self.banks@.len() == self.bank_count
        &&& forall|i: int| 0 <= i < self.banks@.len() ==> (#[trigger] self.banks@[i]).id == i + 1
        &&& forall|i: int|
            0 <= i < self.spends@.len() ==> 1 <= (#[trigger] self.spends@[i]).bank
                <= self.bank_count && 1 <= self.spends@[i].spend
                <= self.banks@[self.spends@[i].bank - 1].spend_count
        &&& forall|i: int, j: int|
            0 <= i < j < self.spends@.len() ==> !((#[trigger] self.spends@[i]).bank
                == (#[trigger] self.spends@[j]).bank && self.spends@[i].spend
                == self.spends@[j].spend)
    }

    /// Whether a bank stands under this identifier.
    pub open spec fn spec_has_bank(self, bank_id: u64) -> bool {
        1 <= bank_id <= self.bank_count
    }

    /// The bank account under an identifier.
    pub open spec fn spec_bank_of(self, bank_id: u64) -> BankAccount {
        self.banks@[bank_id - 1]
    }

    /// A fresh bank module with the given minimum opening deposit.
    pub fn new(min_deposit: u64) -> (r: Bank)
        ensures
            r.wf(),
            r.min_deposit == min_deposit,
            r.bank_count == 0,
            r.banks@.len() == 0,
            r.spends@.len() == 0,
            r.events@.len() == 0,
    {
        Bank {
            min_deposit,
            bank_count: 0,
            banks: Vec::new(),
            spends: Vec::new(),
            events: Vec::new(),
        }
    }

    pub fn total_bank_count(&self) -> (r: u32)
        ensures
            r == self.bank_count,
    {
        self.bank_count
    }

    /// Opens a treasury for an organization, seeded with the deposit. The
    /// caller must be a member of the hosting organization (the caller of
    /// this function answers for that fact) and the deposit must reach
    /// the module minimum; the deposit transfer from the caller is the
    /// caller's to perform.
    pub fn open_org_bank_account(
        &mut self,
        caller: u64,
        org: u64,
        deposit: u64,
        operator: Option<u64>,
        caller_is_member: bool,
    ) -> (r: Result<u64, BankError>)
        requires
            old(self).wf(),
            old(self).bank_count < u32::MAX,
        ensures
            final(self).wf(),
            final(self).min_deposit == old(self).min_deposit,
            !caller_is_member ==> r == Err::<u64, BankError>(
                BankError::NotPermittedToOpenBankAccountForOrg,
            ) && *final(self) == *old(self),
            caller_is_member && deposit < old(self).min_deposit ==> r == Err::<u64, BankError>(
                BankError::CannotOpenBankAccountIfDepositIsBelowModuleMinimum,
            ) && *final(self) == *old(self),
            caller_is_member && deposit >= old(self).min_deposit ==> ({
                let id = (old(self).bank_count + 1) as u64;
                r == Ok::<u64, BankError>(id) && final(self).bank_count == old(self).bank_count + 1
                    && final(self).banks@ == old(self).banks@.push(
                    BankAccount { id, org, balance: deposit, operator, spend_count: 0u64 },
                ) && final(self).spends@ == old(self).spends@ && final(self).events@ == old(self).events@.push(RawEvent::BankAccountOpened(caller, id, deposit, org, operator))
            }),
    {
        if !caller_is_member {
            return Err(BankError::NotPermittedToOpenBankAccountForOrg);
        }
        if deposit < self.min_deposit {
            return Err(BankError::CannotOpenBankAccountIfDepositIsBelowModuleMinimum);
        }
        let id: u64 = (self.bank_count as u64) + 1;
        self.banks.push(BankAccount { id, org, balance: deposit, operator, spend_count: 0 });
        self.bank_count = self.bank_count + 1;
        self.events.push(RawEvent::BankAccountOpened(caller, id, deposit, org, operator));
        proof {
            assert forall|i: int| 0 <= i < self.banks@.len() implies (#[trigger] self.banks@[i]).id
                == i + 1 by {
                if i < self.banks@.len() - 1 {
                    assert(self.banks@[i] == old(self).banks@[i]);
                }
            }
        }
        Ok(id)
    }

    /// Registers a proposal to pay `amount` from a bank to `recipient`,
    /// under the bank's next spend number.
    pub fn propose_spend(&mut self, bank_id: u64, amount: u64, recipient: u64) -> (r: Result<
        BankSpend,
        BankError,
    >)
        requires
            old(self).wf(),
            old(self).spec_has_bank(bank_id) ==> old(self).spec_bank_of(bank_id).spend_count
                < u64::MAX,
        ensures
            final(self).wf(),
            final(self).min_deposit == old(self).min_deposit,
            final(self).bank_count == old(self).bank_count,
            !old(self).spec_has_bank(bank_id) ==> r == Err::<BankSpend, BankError>(
                BankError::BankMustExistToProposeSpendFrom,
            ) && *final(self) == *old(self),
            old(self).spec_has_bank(bank_id) ==> ({
                let account = old(self).spec_bank_of(bank_id);
                let sid = (account.spend_count + 1) as u64;
                r == Ok::<BankSpend, BankError>(BankSpend { bank: bank_id, spend: sid }) && final(self).banks@ == old(self).banks@.update(
                    bank_id - 1,
                    BankAccount { spend_count: sid, ..account },
                ) && final(self).spends@ == old(self).spends@.push(
                    SpendProposal {
                        bank: bank_id,
                        spend: sid,
                        amount,
                        recipient,
                        state: SpendState::Proposed,
                    },
                ) && final(self).events@ == old(self).events@.push(
                    RawEvent::SpendProposed(bank_id, sid, amount, recipient),
                )
            }),
    {
        let n: usize = self.banks.len();
        if bank_id < 1 || bank_id > (n as u64) {
            return Err(BankError::BankMustExistToProposeSpendFrom);
        }
        let idx: usize = (bank_id - 1) as usize;
        let account = self.banks[idx];
        let sid: u64 = account.spend_count + 1;
        self.banks.set(idx, BankAccount { spend_count: sid, ..account });
        self.spends.push(
            SpendProposal {
                bank: bank_id,
                spend: sid,
                amount,
                recipient,
                state: SpendState::Proposed,
            },
        );
        self.events.push(RawEvent::SpendProposed(bank_id, sid, amount, recipient));
        proof {
            assert forall|i: int| 0 <= i < self.banks@.len() implies (#[trigger] self.banks@[i]).id
                == i + 1 by {
                if i != idx as int {
                    assert(self.banks@[i] == old(self).banks@[i]);
                }
            }
            assert forall|i: int|
                0 <= i < self.spends@.len() implies 1 <= (#[trigger] self.spends@[i]).bank
                <= self.bank_count && 1 <= self.spends@[i].spend
                <= self.banks@[self.spends@[i].bank - 1].spend_count by {
                if i < self.spends@.len() - 1 {
                    assert(self.spends@[i] == old(self).spends@[i]);
                    assert(old(self).spends@[i].spend <= old(self).banks@[old(self).spends@[i].bank - 1].spend_count);
                }
            }
            assert forall|i: int, j: int|
                0 <= i < j < self.spends@.len() implies !((#[trigger] self.spends@[i]).bank
                == (#[trigger] self.spends@[j]).bank && self.spends@[i].spend
                == self.spends@[j].spend) by {
                if j == self.spends@.len() - 1 {
                    assert(self.spends@[i] == old(self).spends@[i]);
                    if self.spends@[i].bank == bank_id {
                        assert(old(self).spends@[i].spend <= old(self).spec_bank_of(
                            bank_id,
                        ).spend_count);
                    }
                } else {
                    assert(self.spends@[i] == old(self).spends@[i]);
                    assert(self.spends@[j] == old(self).spends@[j]);
                }
            }
        }
        Ok(BankSpend { bank: bank_id, spend: sid })
    }

    /// The index of the proposal under the identifier pair, if one
    /// stands.
    fn find_spend(&self, spend: BankSpend) -> (r: Option<usize>)
        requires
            self.wf(),
        ensures
            r is None ==> !has_spend(self.spends@, spend.bank, spend.spend),
            r matches Some(j) ==> has_spend(self.spends@, spend.bank, spend.spend) && j as int
                == spend_at(self.spends@, spend.bank, spend.spend) && j < self.spends@.len()
                && self.spends@[j as int].bank == spend.bank && self.spends@[j as int].spend
                == spend.spend,
    {
        let mut found: Option<usize> = None;
        let mut i: usize = 0;
        while i < self.spends.len()
            invariant
                i <= self.spends@.len(),
                found is None ==> forall|k: int|
                    0 <= k < i as int ==> !((#[trigger] self.spends@[k]).bank == spend.bank
                        && self.spends@[k].spend == spend.spend),
                found matches Some(j) ==> j < self.spends@.len() && self.spends@[j as int].bank
                    == spend.bank && self.spends@[j as int].spend == spend.spend,
                self.wf(),
            decreases self.spends@.len() - i,
        {
            if found.is_none() {
                let entry = self.spends[i];
                if entry.bank == spend.bank && entry.spend == spend.spend {
                    found = Some(i);
                }
            }
            i = i + 1;
        }
        proof {
            if let Some(j) = found {
                assert(has_spend(self.spends@, spend.bank, spend.spend));
                let c = spend_at(self.spends@, spend.bank, spend.spend);
                if c != j as int {
                    assert(false);
                }
            }
        }
        found
    }

    /// Opens the vote that decides a proposed spend: the whole share
    /// issuance of the hosting organization may turn out, and passage
    /// needs support from strictly more than half of it.
    pub fn trigger_vote_on_spend_proposal(
        &mut self,
        spend: BankSpend,
        votes: &mut Votes,
        all_possible_turnout: u64,
        now: u64,
    ) -> (r: Result<u64, BankError>)
        requires
            old(self).wf(),
            old(votes).wf(),
            old(votes).count < u64::MAX,
        ensures
            final(self).wf(),
            final(votes).wf(),
            old(votes).consistent() ==> final(votes).consistent(),
            final(self).min_deposit == old(self).min_deposit,
            final(self).bank_count == old(self).bank_count,
            final(self).banks@ == old(self).banks@,
            !has_spend(old(self).spends@, spend.bank, spend.spend) ==> r == Err::<u64, BankError>(
                BankError::CannotTriggerVoteForSpendThatDNE,
            ) && *final(self) == *old(self) && *final(votes) == *old(votes),
            ({
                let p = spend_of(old(self).spends@, spend.bank, spend.spend);
                has_spend(old(self).spends@, spend.bank, spend.spend) && !(p.state is Proposed)
            }) ==> r == Err::<u64, BankError>(BankError::CannotTriggerVoteFromCurrentSpendState)
                && *final(self) == *old(self) && *final(votes) == *old(votes),
            ({
                let p = spend_of(old(self).spends@, spend.bank, spend.spend);
                let vid = (old(votes).count + 1) as u64;
                (has_spend(old(self).spends@, spend.bank, spend.spend) && p.state is Proposed) ==> (
                r == Ok::<u64, BankError>(vid) && final(votes).count == vid
                    && final(votes).ballots@ == old(votes).ballots@ && final(votes).states@ == old(
                    votes,
                ).states@.push(
                    (
                        vid,
                        VoteState {
                            topic: None,
                            in_favor: 0u64,
                            against: 0u64,
                            turnout: 0u64,
                            all_possible_turnout,
                            passage_threshold: ThresholdConfig {
                                support_required: (all_possible_turnout / 2) as u64,
                                turnout_required: None,
                            },
                            rejection_threshold: None,
                            initialized: now,
                            expires: None,
                            outcome: VoteOutcome::Voting,
                        },
                    ),
                ) && final(self).spends@ == old(self).spends@.update(
                    spend_at(old(self).spends@, spend.bank, spend.spend),
                    SpendProposal { state: SpendState::Voting(vid), ..p },
                ) && final(self).events@ == old(self).events@.push(
                    RawEvent::VoteTriggeredOnSpendProposal(spend.bank, spend.spend, vid),
                ))
            }),
    {
        let j = match self.find_spend(spend) {
            Some(j) => j,
            None => { return Err(BankError::CannotTriggerVoteForSpendThatDNE) },
        };
        let p = self.spends[j];
        match p.state {
            SpendState::Proposed => {},
            _ => { return Err(BankError::CannotTriggerVoteFromCurrentSpendState) },
        }
        let vid = votes.open_vote(
            None,
            all_possible_turnout,
            ThresholdConfig::new_support_threshold(all_possible_turnout / 2),
            None,
            now,
            None,
        );
        self.spends.set(j, SpendProposal { state: SpendState::Voting(vid), ..p });
        self.events.push(RawEvent::VoteTriggeredOnSpendProposal(spend.bank, spend.spend, vid));
        proof {
            self.lemma_wf_after_spend_update(*old(self), j as int);
        }
        Ok(vid)
    }

    /// A spend update that keeps the identifier pair keeps the module
    /// well-formed.
    proof fn lemma_wf_after_spend_update(self, prev: Bank, j: int)
        requires
            prev.wf(),
            self.banks@ == prev.banks@,
            self.bank_count == prev.bank_count,
            0 <= j < prev.spends@.len(),
            self.spends@.len() == prev.spends@.len(),
            forall|i: int| 0 <= i < prev.spends@.len() && i != j ==> self.spends@[i] == prev.spends@[i],
            self.spends@[j].bank == prev.spends@[j].bank,
            self.spends@[j].spend == prev.spends@[j].spend,
        ensures
            self.wf(),
    {
        assert forall|a: int, b: int|
            0 <= a < b < self.spends@.len() implies !((#[trigger] self.spends@[a]).bank
            == (#[trigger] self.spends@[b]).bank && self.spends@[a].spend
            == self.spends@[b].spend) by {
            assert(prev.spends@[a].bank == self.spends@[a].bank && prev.spends@[a].spend
                == self.spends@[a].spend);
            assert(prev.spends@[b].bank == self.spends@[b].bank && prev.spends@[b].spend
                == self.spends@[b].spend);
        }
    }

    /// Executes a resolved spend: pays out once on approval, discards on
    /// rejection, and refuses to act while the vote is open or after the
    /// proposal was resolved. The returned pair is the transfer the
    /// caller owes: recipient and amount.
    pub fn poll_spend_proposal(&mut self, spend: BankSpend, votes: &Votes) -> (r: Result<
        Option<(u64, u64)>,
        BankError,
    >)
        requires
            old(self).wf(),
            votes.wf(),
        ensures
            final(self).wf(),
            final(self).min_deposit == old(self).min_deposit,
            final(self).bank_count == old(self).bank_count,
            !has_spend(old(self).spends@, spend.bank, spend.spend) ==> r == Err::<
                Option<(u64, u64)>,
                BankError,
            >(BankError::CannotPollSpendThatDNE) && *final(self) == *old(self),
            ({
                let p = spend_of(old(self).spends@, spend.bank, spend.spend);
                let j = spend_at(old(self).spends@, spend.bank, spend.spend);
                has_spend(old(self).spends@, spend.bank, spend.spend) ==> match p.state {
                    SpendState::Voting(vid) => {
                        if !votes.spec_has_vote(vid) || votes.spec_state_of(vid).outcome
                            == VoteOutcome::NotStarted || votes.spec_state_of(vid).outcome
                            == VoteOutcome::Voting {
                            r == Err::<Option<(u64, u64)>, BankError>(
                                BankError::VoteOutcomeInconclusiveSoPollCannotExecuteSpend,
                            ) && *final(self) == *old(self)
                        } else if votes.spec_state_of(vid).outcome == VoteOutcome::Approved {
                            if old(self).spec_bank_of(p.bank).balance < p.amount {
                                r == Err::<Option<(u64, u64)>, BankError>(
                                    BankError::NotEnoughFundsInBankToExecuteSpend,
                                ) && *final(self) == *old(self)
                            } else {
                                r == Ok::<Option<(u64, u64)>, BankError>(
                                    Some((p.recipient, p.amount)),
                                ) && final(self).banks@ == old(self).banks@.update(
                                    p.bank - 1,
                                    BankAccount {
                                        balance: (old(self).spec_bank_of(p.bank).balance
                                            - p.amount) as u64,
                                        ..old(self).spec_bank_of(p.bank)
                                    },
                                ) && final(self).spends@ == old(self).spends@.update(
                                    j,
                                    SpendProposal { state: SpendState::Executed, ..p },
                                ) && final(self).events@ == old(self).events@.push(
                                    RawEvent::SpendExecuted(
                                        spend.bank,
                                        spend.spend,
                                        p.amount,
                                        p.recipient,
                                    ),
                                )
                            }
                        } else {
                            r == Ok::<Option<(u64, u64)>, BankError>(None) && final(self).banks@
                                == old(self).banks@ && final(self).spends@ == old(self).spends@.update(
                                j,
                                SpendProposal { state: SpendState::Discarded, ..p },
                            ) && final(self).events@ == old(self).events@.push(
                                RawEvent::SpendDiscarded(spend.bank, spend.spend),
                            )
                        }
                    },
                    _ => r == Err::<Option<(u64, u64)>, BankError>(
                        BankError::SpendProposalCannotBePolledFromCurrentState,
                    ) && *final(self) == *old(self),
                }
            }),
    {
        let j = match self.find_spend(spend) {
            Some(j) => j,
            None => { return Err(BankError::CannotPollSpendThatDNE) },
        };
        let p = self.spends[j];
        let vid = match p.state {
            SpendState::Voting(vid) => vid,
            _ => { return Err(BankError::SpendProposalCannotBePolledFromCurrentState) },
        };
        let outcome = match votes.outcome_of(vid) {
            Ok(outcome) => outcome,
            Err(_) => { return Err(BankError::VoteOutcomeInconclusiveSoPollCannotExecuteSpend) },
        };
        match outcome {
            VoteOutcome::NotStarted | VoteOutcome::Voting => Err(
                BankError::VoteOutcomeInconclusiveSoPollCannotExecuteSpend,
            ),
            VoteOutcome::Approved => {
                let bank_idx: usize = (p.bank - 1) as usize;
                let account = self.banks[bank_idx];
                if account.balance < p.amount {
                    return Err(BankError::NotEnoughFundsInBankToExecuteSpend);
                }
                let paid = BankAccount { balance: account.balance - p.amount, ..account };
                self.banks.set(bank_idx, paid);
                self.spends.set(j, SpendProposal { state: SpendState::Executed, ..p });
                self.events.push(
                    RawEvent::SpendExecuted(spend.bank, spend.spend, p.amount, p.recipient),
                );
                proof {
                    assert forall|i: int|
                        0 <= i < self.banks@.len() implies (#[trigger] self.banks@[i]).id == i
                        + 1 by {
                        if i != bank_idx as int {
                            assert(self.banks@[i] == old(self).banks@[i]);
                        }
                    }
                    assert forall|i: int|
                        0 <= i < self.spends@.len() implies 1 <= (#[trigger] self.spends@[i]).bank
                        <= self.bank_count && 1 <= self.spends@[i].spend
                        <= self.banks@[self.spends@[i].bank - 1].spend_count by {
                        if i != j as int {
                            assert(self.spends@[i] == old(self).spends@[i]);
                        }
                        assert(self.banks@[self.spends@[i].bank - 1].spend_count == old(self).banks@[self.spends@[i].bank - 1].spend_count);
                    }
                    self.lemma_wf_unique_spends(*old(self), j as int);
                }
                Ok(Some((p.recipient, p.amount)))
            },
            VoteOutcome::Rejected => {
                self.spends.set(j, SpendProposal { state: SpendState::Discarded, ..p });
                self.events.push(RawEvent::SpendDiscarded(spend.bank, spend.spend));
                proof {
                    self.lemma_wf_after_spend_update(*old(self), j as int);
                }
                Ok(None)
            },
        }
    }

    /// A spend update that keeps the identifier pairs keeps them unique.
    proof fn lemma_wf_unique_spends(self, prev: Bank, j: int)
        requires
            prev.wf(),
            0 <= j < prev.spends@.len(),
            self.spends@.len() == prev.spends@.len(),
            forall|i: int| 0 <= i < prev.spends@.len() && i != j ==> self.spends@[i] == prev.spends@[i],
            self.spends@[j].bank == prev.spends@[j].bank,
            self.spends@[j].spend == prev.spends@[j].spend,
        ensures
            forall|a: int, b: int|
                0 <= a < b < self.spends@.len() ==> !((#[trigger] self.spends@[a]).bank
                    == (#[trigger] self.spends@[b]).bank && self.spends@[a].spend
                    == self.spends@[b].spend),
    {
        assert forall|a: int, b: int|
            0 <= a < b < self.spends@.len() implies !((#[trigger] self.spends@[a]).bank
            == (#[trigger] self.spends@[b]).bank && self.spends@[a].spend
            == self.spends@[b].spend) by {
            assert(prev.spends@[a].bank == self.spends@[a].bank && prev.spends@[a].spend
                == self.spends@[a].spend);
            assert(prev.spends@[b].bank == self.spends@[b].bank && prev.spends@[b].spend
                == self.spends@[b].spend);
        }
    }

    /// The privileged escape valve: executes a pending spend directly,
    /// without any vote. Refused once the proposal was resolved.
    pub fn sudo_approve_spend_proposal(&mut self, spend: BankSpend) -> (r: Result<
        (u64, u64),
        BankError,
    >)
        requires
            old(self).wf(),
        ensures
            final(self).wf(),
            final(self).min_deposit == old(self).min_deposit,
            final(self).bank_count == old(self).bank_count,
            !has_spend(old(self).spends@, spend.bank, spend.spend) ==> r == Err::<
                (u64, u64),
                BankError,
            >(BankError::CannotApproveSpendThatDNE) && *final(self) == *old(self),
            ({
                let p = spend_of(old(self).spends@, spend.bank, spend.spend);
                let j = spend_at(old(self).spends@, spend.bank, spend.spend);
                has_spend(old(self).spends@, spend.bank, spend.spend) ==> match p.state {
                    SpendState::Proposed | SpendState::Voting(_) => {
                        if old(self).spec_bank_of(p.bank).balance < p.amount {
                            r == Err::<(u64, u64), BankError>(
                                BankError::NotEnoughFundsInBankToExecuteSpend,
                            ) && *final(self) == *old(self)
                        } else {
                            r == Ok::<(u64, u64), BankError>((p.recipient, p.amount)) && final(self).banks@ == old(self).banks@.update(
                                p.bank - 1,
                                BankAccount {
                                    balance: (old(self).spec_bank_of(p.bank).balance
                                        - p.amount) as u64,
                                    ..old(self).spec_bank_of(p.bank)
                                },
                            ) && final(self).spends@ == old(self).spends@.update(
                                j,
                                SpendProposal { state: SpendState::Executed, ..p },
                            ) && final(self).events@ == old(self).events@.push(
                                RawEvent::SpendExecuted(
                                    spend.bank,
                                    spend.spend,
                                    p.amount,
                                    p.recipient,
                                ),
                            )
                        }
                    },
                    _ => r == Err::<(u64, u64), BankError>(
                        BankError::CannotApproveSpendFromCurrentState,
                    ) && *final(self) == *old(self),
                }
            }),
    {
        let j = match self.find_spend(spend) {
            Some(j) => j,
            None => { return Err(BankError::CannotApproveSpendThatDNE) },
        };
        let p = self.spends[j];
        match p.state {
            SpendState::Proposed | SpendState::Voting(_) => {},
            _ => { return Err(BankError::CannotApproveSpendFromCurrentState) },
        }
        let bank_idx: usize = (p.bank - 1) as usize;
        let account = self.banks[bank_idx];
        if account.balance < p.amount {
            return Err(BankError::NotEnoughFundsInBankToExecuteSpend);
        }
        let paid = BankAccount { balance: account.balance - p.amount, ..account };
        self.banks.set(bank_idx, paid);
        self.spends.set(j, SpendProposal { state: SpendState::Executed, ..p });
        self.events.push(RawEvent::SpendExecuted(spend.bank, spend.spend, p.amount, p.recipient));
        proof {
            assert forall|i: int| 0 <= i < self.banks@.len() implies (#[trigger] self.banks@[i]).id
                == i + 1 by {
                if i != bank_idx as int {
                    assert(self.banks@[i] == old(self).banks@[i]);
                }
            }
            assert forall|i: int|
                0 <= i < self.spends@.len() implies 1 <= (#[trigger] self.spends@[i]).bank
                <= self.bank_count && 1 <= self.spends@[i].spend
                <= self.banks@[self.spends@[i].bank - 1].spend_count by {
                if i != j as int {
                    assert(self.spends@[i] == old(self).spends@[i]);
                }
                assert(self.banks@[self.spends@[i].bank - 1].spend_count == old(self).banks@[self.spends@[i].bank - 1].spend_count);
            }
            self.lemma_wf_unique_spends(*old(self), j as int);
        }
        Ok((p.recipient, p.amount))
    }
}

} // verus!
