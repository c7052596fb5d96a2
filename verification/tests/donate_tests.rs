use sunshine_gov::donate::{
    calculate_proportional_amount, calculate_uniform_amount, donate, DonateError,
};
use sunshine_gov::org::OrgRep;

#[test]
fn proportional_amount_is_the_exact_floor() {
    assert_eq!(calculate_proportional_amount(100, 30, 100), 30);
    assert_eq!(calculate_proportional_amount(101, 30, 100), 30);
    assert_eq!(calculate_proportional_amount(101, 70, 100), 70);
    assert_eq!(calculate_proportional_amount(7, 1, 3), 2);
}

#[test]
fn uniform_amount_is_the_exact_floor() {
    assert_eq!(calculate_uniform_amount(10, 3), 3);
    assert_eq!(calculate_uniform_amount(9, 3), 3);
    assert_eq!(calculate_uniform_amount(2, 3), 0);
}

#[test]
fn weighted_donation_splits_by_ownership() {
    let group = vec![(1, Some(30)), (2, Some(70))];
    let plan = donate(1000, OrgRep::Weighted(1), Some(group.clone()), 100, 100).unwrap();
    assert_eq!(plan.transfers, vec![(1, 30), (2, 70)]);
    assert_eq!(plan.amt_to_org, 100);
    assert_eq!(plan.remainder, 0);

    let plan = donate(1000, OrgRep::Weighted(1), Some(group), 100, 101).unwrap();
    assert_eq!(plan.transfers, vec![(1, 30), (2, 70)]);
    assert_eq!(plan.amt_to_org, 100);
    assert_eq!(plan.remainder, 1);
}

#[test]
fn equal_donation_splits_evenly_with_remainder() {
    let group = vec![(1, None), (2, None), (3, None)];
    let plan = donate(1000, OrgRep::Equal(1), Some(group), 0, 10).unwrap();
    assert_eq!(plan.transfers, vec![(1, 3), (2, 3), (3, 3)]);
    assert_eq!(plan.amt_to_org, 9);
    assert_eq!(plan.remainder, 1);
}

#[test]
fn donation_needs_free_balance_to_cover_the_amount() {
    let group = vec![(1, Some(1))];
    let r = donate(9, OrgRep::Weighted(1), Some(group), 1, 10);
    assert_eq!(r, Err(DonateError::NotEnoughFundsInFreeToMakeTransfer));
}

#[test]
fn donation_to_missing_org_is_refused() {
    let r = donate(100, OrgRep::Equal(1), None, 0, 10);
    assert_eq!(r, Err(DonateError::CannotDonateToOrgThatDNE));
}

#[test]
fn weighted_donation_fails_whole_on_missing_ownership() {
    let group = vec![(1, Some(30)), (2, None)];
    let r = donate(1000, OrgRep::Weighted(1), Some(group), 100, 50);
    assert_eq!(r, Err(DonateError::AccountHasNoOwnershipInOrg));
}
