use sunshine_gov::cast::Votes;
use sunshine_gov::court::{
    get_last_event, Court, CourtError, RawEvent, VoteCall, VoteMetadata,
};
use sunshine_gov::org::OrgRep;
use sunshine_gov::vote::{ThresholdConfig, VoterView};

fn resolution_metadata() -> VoteMetadata {
    let signal_threshold = ThresholdConfig::new_support_threshold(0);
    VoteMetadata::Signal(VoteCall::new(OrgRep::Equal(1), signal_threshold, None))
}

#[test]
fn dispute_registration_works() {
    let mut court = Court::new(10);
    let new_resolution_metadata = resolution_metadata();
    assert_eq!(
        court.register_dispute_type_with_resolution_path(
            1,
            9,
            2,
            new_resolution_metadata,
            None,
            100,
        ),
        Err(CourtError::DisputeMustExceedModuleMinimum)
    );
    assert_eq!(
        court.register_dispute_type_with_resolution_path(
            1,
            101,
            2,
            new_resolution_metadata,
            None,
            100,
        ),
        Err(CourtError::InsufficientBalance)
    );
    assert_eq!(
        court.register_dispute_type_with_resolution_path(
            1,
            10,
            2,
            new_resolution_metadata,
            None,
            100,
        ),
        Ok(1)
    );
    assert_eq!(
        get_last_event(&court.events),
        Some(RawEvent::RegisteredDisputeWithResolutionPath(
            1,
            1,
            10,
            2,
            OrgRep::Equal(1)
        ))
    );
}

#[test]
fn dispute_raised_works() {
    let mut court = Court::new(10);
    let mut votes = Votes::new();
    let new_resolution_metadata = resolution_metadata();
    assert_eq!(
        court.raise_dispute_to_trigger_vote(2, 1, &mut votes, 6, 1),
        Err(CourtError::CannotRaiseDisputeIfDisputeStateDNE)
    );
    assert_eq!(
        court.register_dispute_type_with_resolution_path(
            1,
            10,
            2,
            new_resolution_metadata,
            None,
            100,
        ),
        Ok(1)
    );
    assert_eq!(
        court.raise_dispute_to_trigger_vote(1, 1, &mut votes, 6, 1),
        Err(CourtError::SignerNotAuthorizedToRaiseThisDispute)
    );
    assert_eq!(court.raise_dispute_to_trigger_vote(2, 1, &mut votes, 6, 1), Ok(1));
    assert_eq!(
        get_last_event(&court.events),
        Some(RawEvent::DisputeRaisedAndVoteTriggered(
            1,
            1,
            10,
            2,
            OrgRep::Equal(1),
            1
        ))
    );
    assert_eq!(
        court.raise_dispute_to_trigger_vote(2, 1, &mut votes, 6, 1),
        Err(CourtError::CannotRaiseDisputeFromCurrentState)
    );
}

#[test]
fn poll_dispute_to_execute_outcome_works() {
    let mut court = Court::new(10);
    let mut votes = Votes::new();
    let new_resolution_metadata = resolution_metadata();
    assert_eq!(
        court.poll_dispute_to_execute_outcome(1, 1, &votes),
        Err(CourtError::CannotPollDisputeIfDisputeStateDNE)
    );
    assert_eq!(
        court.register_dispute_type_with_resolution_path(
            1,
            10,
            2,
            new_resolution_metadata,
            None,
            100,
        ),
        Ok(1)
    );
    assert_eq!(
        court.poll_dispute_to_execute_outcome(1, 1, &votes),
        Err(CourtError::ActiveDisputeCannotBePolledFromCurrentState)
    );
    assert_eq!(court.raise_dispute_to_trigger_vote(2, 1, &mut votes, 6, 1), Ok(1));
    assert_eq!(
        court.poll_dispute_to_execute_outcome(1, 1, &votes),
        Err(CourtError::VoteOutcomeInconclusiveSoPollCannotExecuteOutcome)
    );
    // use vote to pass the proposal
    assert!(votes.submit_vote(1, 1, 1, VoterView::InFavor, None).is_ok());
    // then poll again to execute
    assert_eq!(court.poll_dispute_to_execute_outcome(1, 1, &votes), Ok(Some((2, 10))));
    assert_eq!(
        court.poll_dispute_to_execute_outcome(1, 1, &votes),
        Err(CourtError::ActiveDisputeCannotBePolledFromCurrentState)
    );
}
