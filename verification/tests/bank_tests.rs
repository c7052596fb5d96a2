use sunshine_gov::bank::{get_last_event, Bank, BankError, BankSpend, RawEvent};
use sunshine_gov::cast::Votes;
use sunshine_gov::vote::VoterView;

const MEMBERS: [u64; 6] = [1, 2, 3, 4, 5, 6];

fn seeded_balances() -> Vec<(u64, u64)> {
    vec![(1, 100), (2, 98), (3, 200), (4, 75), (5, 10), (6, 69)]
}

fn balance_of(ledger: &[(u64, u64)], who: u64) -> u64 {
    ledger.iter().find(|e| e.0 == who).map(|e| e.1).unwrap_or(0)
}

fn credit(ledger: &mut Vec<(u64, u64)>, who: u64, amount: u64) {
    match ledger.iter_mut().find(|e| e.0 == who) {
        Some(e) => e.1 += amount,
        None => ledger.push((who, amount)),
    }
}

#[test]
fn opening_bank_account_works() {
    let mut bank = Bank::new(20);
    assert_eq!(
        bank.open_org_bank_account(69, 1, 10, None, MEMBERS.contains(&69)),
        Err(BankError::NotPermittedToOpenBankAccountForOrg)
    );
    assert_eq!(
        bank.open_org_bank_account(1, 1, 19, None, MEMBERS.contains(&1)),
        Err(BankError::CannotOpenBankAccountIfDepositIsBelowModuleMinimum)
    );
    let total_bank_count = bank.total_bank_count();
    assert_eq!(total_bank_count, 0u32);
    assert_eq!(bank.open_org_bank_account(1, 1, 20, None, MEMBERS.contains(&1)), Ok(1));
    assert_eq!(
        get_last_event(&bank.events),
        Some(RawEvent::BankAccountOpened(1, 1, 20, 1, None)),
    );
    let total_bank_count = bank.total_bank_count();
    assert_eq!(total_bank_count, 1u32);
}

#[test]
fn spend_governance_works() {
    let mut bank = Bank::new(20);
    let mut votes = Votes::new();
    let mut ledger = seeded_balances();
    assert!(bank.open_org_bank_account(1, 1, 20, None, MEMBERS.contains(&1)).is_ok());
    assert_eq!(
        bank.propose_spend(2, 10, 3),
        Err(BankError::BankMustExistToProposeSpendFrom)
    );
    let first_spend_proposal = bank.propose_spend(1, 10, 3).unwrap();
    assert_eq!(first_spend_proposal, BankSpend::new(1, 1));
    let vote_id = bank
        .trigger_vote_on_spend_proposal(first_spend_proposal, &mut votes, MEMBERS.len() as u64, 1)
        .unwrap();
    for i in 1u64..7u64 {
        assert!(votes.submit_vote(vote_id, i, 1, VoterView::InFavor, None).is_ok());
    }
    assert_eq!(balance_of(&ledger, 3), 200);
    let transfer = bank.poll_spend_proposal(first_spend_proposal, &votes).unwrap();
    let (to, amount) = transfer.unwrap();
    credit(&mut ledger, to, amount);
    // spend executed
    assert_eq!(balance_of(&ledger, 3), 210);
    // polling a resolved proposal is refused
    assert_eq!(
        bank.poll_spend_proposal(first_spend_proposal, &votes),
        Err(BankError::SpendProposalCannotBePolledFromCurrentState)
    );
    let second_spend_proposal = bank.propose_spend(1, 5, 4).unwrap();
    assert_eq!(second_spend_proposal, BankSpend::new(1, 2));
    assert_eq!(balance_of(&ledger, 4), 75);
    let (to, amount) = bank.sudo_approve_spend_proposal(second_spend_proposal).unwrap();
    credit(&mut ledger, to, amount);
    assert_eq!(balance_of(&ledger, 4), 80);
}

#[test]
fn spend_approval_needs_a_strict_majority() {
    let mut bank = Bank::new(20);
    let mut votes = Votes::new();
    assert!(bank.open_org_bank_account(1, 1, 20, None, true).is_ok());
    let spend = bank.propose_spend(1, 10, 3).unwrap();
    let vote_id = bank.trigger_vote_on_spend_proposal(spend, &mut votes, 6, 1).unwrap();
    for i in 1u64..4u64 {
        assert!(votes.submit_vote(vote_id, i, 1, VoterView::InFavor, None).is_ok());
    }
    // three of six in favor: exactly the support bar, not over it
    assert_eq!(
        bank.poll_spend_proposal(spend, &votes),
        Err(BankError::VoteOutcomeInconclusiveSoPollCannotExecuteSpend)
    );
    assert!(votes.submit_vote(vote_id, 4, 1, VoterView::InFavor, None).is_ok());
    assert_eq!(bank.poll_spend_proposal(spend, &votes), Ok(Some((3, 10))));
}

#[test]
fn spend_lifecycle_errors() {
    let mut bank = Bank::new(20);
    let mut votes = Votes::new();
    assert!(bank.open_org_bank_account(1, 1, 20, None, true).is_ok());
    let ghost_spend = BankSpend::new(1, 9);
    assert_eq!(
        bank.trigger_vote_on_spend_proposal(ghost_spend, &mut votes, 6, 1),
        Err(BankError::CannotTriggerVoteForSpendThatDNE)
    );
    assert_eq!(
        bank.poll_spend_proposal(ghost_spend, &votes),
        Err(BankError::CannotPollSpendThatDNE)
    );
    assert_eq!(
        bank.sudo_approve_spend_proposal(ghost_spend),
        Err(BankError::CannotApproveSpendThatDNE)
    );
    let spend = bank.propose_spend(1, 25, 3).unwrap();
    // not yet under vote
    assert_eq!(
        bank.poll_spend_proposal(spend, &votes),
        Err(BankError::SpendProposalCannotBePolledFromCurrentState)
    );
    assert!(bank.trigger_vote_on_spend_proposal(spend, &mut votes, 6, 1).is_ok());
    assert_eq!(
        bank.trigger_vote_on_spend_proposal(spend, &mut votes, 6, 1),
        Err(BankError::CannotTriggerVoteFromCurrentSpendState)
    );
    // the bank holds 20, the spend asks 25
    assert_eq!(
        bank.sudo_approve_spend_proposal(spend),
        Err(BankError::NotEnoughFundsInBankToExecuteSpend)
    );
    let affordable = bank.propose_spend(1, 5, 3).unwrap();
    assert!(bank.sudo_approve_spend_proposal(affordable).is_ok());
    assert_eq!(
        bank.sudo_approve_spend_proposal(affordable),
        Err(BankError::CannotApproveSpendFromCurrentState)
    );
}
