use sunshine_gov::vote::{ThresholdConfig, Vote, VoteOutcome, VoteState, VoterView};

fn open_state(support: u64, rejection: Option<ThresholdConfig>) -> VoteState {
    VoteState::new(
        None,
        100,
        ThresholdConfig::new_support_threshold(support),
        rejection,
        1,
        None,
    )
}

#[test]
fn threshold_construction_rejects_support_at_or_above_turnout() {
    assert!(ThresholdConfig::new(5, Some(5)).is_none());
    assert!(ThresholdConfig::new(6, Some(5)).is_none());
    let c = ThresholdConfig::new(4, Some(5)).unwrap();
    assert_eq!(c.support_threshold(), 4);
    assert_eq!(c.turnout_threshold(), Some(5));
    let plain = ThresholdConfig::new(7, None).unwrap();
    assert_eq!(plain.turnout_threshold(), None);
}

#[test]
fn new_support_threshold_has_no_turnout_requirement() {
    let c = ThresholdConfig::new_support_threshold(3);
    assert_eq!(c.support_threshold(), 3);
    assert_eq!(c.turnout_threshold(), None);
}

#[test]
fn set_new_view_is_noop_on_same_direction() {
    let v = Vote::new(5, VoterView::InFavor, Some(7));
    assert!(v.set_new_view(VoterView::InFavor, None).is_none());
    let w = v.set_new_view(VoterView::Against, Some(9)).unwrap();
    assert_eq!(w.magnitude(), 5);
    assert_eq!(w.direction(), VoterView::Against);
    assert_eq!(w.justification(), Some(9));
}

#[test]
fn support_equal_to_threshold_does_not_approve() {
    let s = open_state(3, None);
    let at_bar = s.apply(Vote::new(3, VoterView::InFavor, None));
    assert_eq!(at_bar.in_favor(), 3);
    assert_eq!(at_bar.outcome(), VoteOutcome::Voting);
    let over_bar = at_bar.apply(Vote::new(1, VoterView::InFavor, None));
    assert_eq!(over_bar.in_favor(), 4);
    assert_eq!(over_bar.outcome(), VoteOutcome::Approved);
}

#[test]
fn apply_dispatches_on_direction() {
    let s = open_state(50, None);
    let favored = s.apply(Vote::new(4, VoterView::InFavor, None));
    assert_eq!((favored.in_favor(), favored.against(), favored.turnout()), (4, 0, 4));
    let against = favored.apply(Vote::new(3, VoterView::Against, None));
    assert_eq!((against.in_favor(), against.against(), against.turnout()), (4, 3, 7));
    let abstained = against.apply(Vote::new(2, VoterView::Abstain, None));
    assert_eq!((abstained.in_favor(), abstained.against(), abstained.turnout()), (4, 3, 9));
    let untouched = abstained.apply(Vote::new(9, VoterView::NoVote, None));
    assert_eq!(untouched, abstained);
}

#[test]
fn apply_then_revert_is_identity_on_tallies() {
    let s = open_state(50, None);
    let v = Vote::new(6, VoterView::Against, None);
    assert_eq!(s.apply(v).revert(v), s);
}

#[test]
fn sequence_round_trip_restores_state() {
    let s = open_state(50, None);
    let votes = [
        Vote::new(4, VoterView::InFavor, None),
        Vote::new(7, VoterView::Against, Some(3)),
        Vote::new(2, VoterView::Abstain, None),
        Vote::new(1, VoterView::NoVote, None),
    ];
    let mut forward = s;
    for v in votes.iter() {
        forward = forward.apply(*v);
        assert_eq!(forward.outcome(), VoteOutcome::Voting);
    }
    let mut back = forward;
    for v in votes.iter().rev() {
        back = back.revert(*v);
    }
    assert_eq!(back, s);
}

#[test]
fn rejection_needs_turnout_below_its_bar() {
    let rejection = ThresholdConfig::new(2, Some(10)).unwrap();
    let s = open_state(50, Some(rejection));
    let rejected = s.apply(Vote::new(3, VoterView::Against, None));
    assert_eq!(rejected.outcome(), VoteOutcome::Rejected);
    // The turnout comparison reads as a ceiling: with turnout at or over
    // the bar, the rejection condition no longer holds.
    let heavy = s.apply(Vote::new(12, VoterView::Against, None));
    assert_eq!(heavy.against(), 12);
    assert_eq!(heavy.outcome(), VoteOutcome::Voting);
}

#[test]
fn approval_wins_over_rejection() {
    let rejection = ThresholdConfig::new(0, None).unwrap();
    let s = open_state(0, Some(rejection));
    let both = s
        .apply(Vote::new(1, VoterView::Against, None))
        .apply(Vote::new(2, VoterView::InFavor, None));
    assert_eq!(both.outcome(), VoteOutcome::Approved);
}

#[test]
fn unanimous_consent_needs_more_than_the_whole_electorate() {
    let s = VoteState::new_unanimous_consent(Some(8), 5, 1, None);
    assert_eq!(s.passage_threshold().support_threshold(), 5);
    let all_in = s.apply(Vote::new(5, VoterView::InFavor, None));
    assert_eq!(all_in.outcome(), VoteOutcome::Voting);
}

#[test]
fn topic_updates_clear_or_keep_tallies() {
    let s = open_state(50, None).apply(Vote::new(4, VoterView::InFavor, None));
    let cleared = s.update_topic_and_clear_state(11);
    assert_eq!(cleared.topic(), Some(11));
    assert_eq!((cleared.in_favor(), cleared.against(), cleared.turnout()), (0, 0, 0));
    let kept = s.update_topic_without_clearing_state(12);
    assert_eq!(kept.topic(), Some(12));
    assert_eq!((kept.in_favor(), kept.against(), kept.turnout()), (4, 0, 4));
}

#[test]
fn defaults_start_not_started() {
    assert_eq!(VoteOutcome::default(), VoteOutcome::NotStarted);
    let s = VoteState::default();
    assert_eq!(s.outcome(), VoteOutcome::NotStarted);
    assert_eq!((s.in_favor(), s.against(), s.turnout()), (0, 0, 0));
    assert_eq!(s.topic(), None);
    assert_eq!(s.rejected(), None);
}

#[test]
fn rejected_is_none_without_rejection_threshold() {
    let s = open_state(3, None);
    assert_eq!(s.rejected(), None);
    let rejection = ThresholdConfig::new(2, None).unwrap();
    let with = open_state(50, Some(rejection));
    assert_eq!(with.rejected(), Some(false));
    assert_eq!(
        with.apply(Vote::new(3, VoterView::Against, None)).rejected(),
        Some(true)
    );
}
