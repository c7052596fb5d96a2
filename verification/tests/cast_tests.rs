use sunshine_gov::cast::{Votes, VoteError};
use sunshine_gov::vote::{ThresholdConfig, VoteOutcome, VoterView};

fn open_plain_vote(votes: &mut Votes, support: u64) -> u64 {
    votes.open_vote(
        None,
        100,
        ThresholdConfig::new_support_threshold(support),
        None,
        1,
        None,
    )
}

#[test]
fn vote_book_hands_out_sequential_identifiers() {
    let mut votes = Votes::new();
    assert_eq!(open_plain_vote(&mut votes, 10), 1);
    assert_eq!(open_plain_vote(&mut votes, 20), 2);
    assert_eq!(votes.outcome_of(1), Ok(VoteOutcome::Voting));
    assert_eq!(votes.outcome_of(3), Err(VoteError::VoteStateDNE));
}

#[test]
fn changed_ballot_reverts_the_old_one_first() {
    let mut votes = Votes::new();
    let vid = open_plain_vote(&mut votes, 10);
    assert!(votes.submit_vote(vid, 1, 5, VoterView::InFavor, None).is_ok());
    let st = votes.vote_state_of(vid).unwrap();
    assert_eq!((st.in_favor(), st.against(), st.turnout()), (5, 0, 5));
    // same direction again: a valid no-op, not a second tally
    assert!(votes.submit_vote(vid, 1, 5, VoterView::InFavor, None).is_ok());
    let st = votes.vote_state_of(vid).unwrap();
    assert_eq!((st.in_favor(), st.against(), st.turnout()), (5, 0, 5));
    // a changed view moves the whole magnitude across
    assert!(votes.submit_vote(vid, 1, 5, VoterView::Against, None).is_ok());
    let st = votes.vote_state_of(vid).unwrap();
    assert_eq!((st.in_favor(), st.against(), st.turnout()), (0, 5, 5));
}

#[test]
fn ballots_of_different_voters_accumulate() {
    let mut votes = Votes::new();
    let vid = open_plain_vote(&mut votes, 10);
    assert!(votes.submit_vote(vid, 1, 6, VoterView::InFavor, None).is_ok());
    assert!(votes.submit_vote(vid, 2, 5, VoterView::InFavor, None).is_ok());
    assert_eq!(votes.outcome_of(vid), Ok(VoteOutcome::Approved));
    let st = votes.vote_state_of(vid).unwrap();
    assert_eq!(st.in_favor(), 11);
}

#[test]
fn voting_on_a_missing_vote_is_refused() {
    let mut votes = Votes::new();
    assert_eq!(
        votes.submit_vote(1, 1, 5, VoterView::InFavor, None),
        Err(VoteError::VoteStateDNE)
    );
}

#[test]
fn a_tally_past_the_numeric_range_is_refused() {
    let mut votes = Votes::new();
    let vid = open_plain_vote(&mut votes, 10);
    assert!(votes.submit_vote(vid, 1, u64::MAX, VoterView::InFavor, None).is_ok());
    assert_eq!(
        votes.submit_vote(vid, 2, 1, VoterView::InFavor, None),
        Err(VoteError::SignalOverflow)
    );
    let st = votes.vote_state_of(vid).unwrap();
    assert_eq!(st.in_favor(), u64::MAX);
}
