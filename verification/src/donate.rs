//! The proportional distribution engine: splits a donation across an
//! organization's members, either in proportion to share ownership or
//! equally per member, by integer floor division. The whole plan is
//! computed before any transfer is made, so a failed member lookup
//! commits nothing; the floor remainders go to a designated recipient.

use vstd::prelude::*;

use crate::org::OrgRep;
use vstd::arithmetic::div_mod::{
    lemma_div_is_ordered, lemma_div_multiples_vanish, lemma_div_of0, lemma_div_pos_is_pos,
    lemma_dividing_sums, lemma_fundamental_div_mod, lemma_mod_division_less_than_divisor,
};
use vstd::arithmetic::mul::{
    lemma_mul_inequality, lemma_mul_is_distributive_add, lemma_mul_is_distributive_add_other_way,
    lemma_mul_nonnegative,
    lemma_mul_upper_bound,
};

verus! {

/// Why a donation was refused; the whole operation fails and no transfer
/// is made.
#[derive(Clone, Copy, Debug, PartialEq, Eq, Structural)]
pub enum DonateError {
    /// A member of a weighted organization has no ownership record
    AccountHasNoOwnershipInOrg,
    /// The sender's free balance does not cover the amount
    NotEnoughFundsInFreeToMakeTransfer,
    /// The organization does not exist
    CannotDonateToOrgThatDNE,
}

/// The transfers a donation resolves to: one per member, the total that
/// reaches the organization, and the floor-truncation remainder owed to
/// the remainder recipient.
#[derive(Clone, Debug, PartialEq, Eq)]
pub struct DonationPlan {
    /// One (account, amount) transfer per member, in member order
    pub transfers: Vec<(u64, u64)>,
    /// The sum of the member transfers
    pub amt_to_org: u64,
    /// What floor truncation left over
    pub remainder: u64,
}

/// What an optional member listing holds: its entries, or nothing.
pub open spec fn members_of(group: Option<Vec<(u64, Option<u64>)>>) -> Seq<(u64, Option<u64>)> {
    match group {
        Some(g) => g@,
        None => Seq::empty(),
    }
}

/// The recorded share total of a member entry, zero where the record is
/// missing.
pub open spec fn share_at(g: Seq<(u64, Option<u64>)>, i: int) -> u64 {
    match g[i].1 {
        Some(s) => s,
        None => 0u64,
    }
}

/// The sum of the recorded share totals of a member listing.
pub open spec fn sum_member_shares(g: Seq<(u64, Option<u64>)>) -> int
    decreases g.len(),
{
    if g.len() == 0 {
        0
    } else {
        sum_member_shares(g.drop_last()) + share_at(g, g.len() - 1)
    }
}

/// Every member of the listing has an ownership record.
pub open spec fn all_have_ownership(g: Seq<(u64, Option<u64>)>) -> bool {
    forall|i: int| 0 <= i < g.len() ==> g[i].1 is Some
}

/// The sum of the per-member floor shares of a weighted donation.
pub open spec fn weighted_total(g: Seq<(u64, Option<u64>)>, amt: u64, issuance: u64) -> int
    decreases g.len(),
{
    if g.len() == 0 {
        0
    } else {
        weighted_total(g.drop_last(), amt, issuance) + (amt * share_at(g, g.len() - 1)) / (issuance as int)
    }
}

/// A correct weighted plan: each member receives the floor of the
/// donation scaled by its share of the issuance, and the remainder is
/// exactly what floor truncation lost.
pub open spec fn weighted_plan_ok(
    g: Seq<(u64, Option<u64>)>,
    amt: u64,
    issuance: u64,
    plan: DonationPlan,
) -> bool {
    &&& plan.transfers@.len() == g.len()
    &&& forall|i: int|
        0 <= i < g.len() ==> plan.transfers@[i].0 == g[i].0 && plan.transfers@[i].1 == (amt
            * share_at(g, i)) / (issuance as int)
    &&& plan.amt_to_org == weighted_total(g, amt, issuance)
    &&& plan.remainder == amt - weighted_total(g, amt, issuance)
}

/// A correct equal plan: each member receives the floor of the donation
/// divided by the member count, and the remainder is what floor
/// truncation lost.
pub open spec fn equal_plan_ok(g: Seq<(u64, Option<u64>)>, amt: u64, plan: DonationPlan) -> bool {
    &&& plan.transfers@.len() == g.len()
    &&& forall|i: int|
        0 <= i < g.len() ==> plan.transfers@[i].0 == g[i].0 && plan.transfers@[i].1 == amt as int
            / g.len() as int
    &&& plan.amt_to_org == g.len() * (amt as int / g.len() as int)
    &&& plan.remainder == amt - g.len() * (amt as int / g.len() as int)
}

/// Floor division distributes over addition with a loss of at most one
/// divisor: the two floors together never exceed the floor of the sum.
proof fn lemma_div_superadd(a: int, b: int, d: int)
    requires
        0 < d,
        0 <= a,
        0 <= b,
    ensures
        a / d + b / d <= (a + b) / d,
{
    let r = a % d + b % d - (a + b) % d;
    lemma_dividing_sums(a, b, d, r);
    lemma_mod_division_less_than_divisor(a, d);
    lemma_mod_division_less_than_divisor(b, d);
    lemma_mod_division_less_than_divisor(a + b, d);
    let q = (a + b) / d;
    let q2 = a / d + b / d;
    lemma_mul_is_distributive_add(d, a / d, b / d);
    assert(d * q - r == d * q2);
    if q2 > q {
        lemma_mul_inequality(1, q2 - q, d);
        lemma_mul_is_distributive_add(d, q, q2 - q);
        assert(false);
    }
}

/// Share sums are never negative.
proof fn lemma_sum_member_shares_nonneg(g: Seq<(u64, Option<u64>)>)
    ensures
        0 <= sum_member_shares(g),
    decreases g.len(),
{
    if g.len() > 0 {
        lemma_sum_member_shares_nonneg(g.drop_last());
    }
}

/// A prefix of a member listing sums to at most the whole listing.
proof fn lemma_sum_member_shares_take_le(g: Seq<(u64, Option<u64>)>, j: int)
    requires
        0 <= j <= g.len(),
    ensures
        sum_member_shares(g.take(j)) <= sum_member_shares(g),
    decreases g.len() - j,
{
    if j == g.len() {
        assert(g.take(j) == g);
    } else {
        assert(g.take(j + 1).drop_last() == g.take(j));
        lemma_sum_member_shares_take_le(g, j + 1);
    }
}

/// One member's recorded shares never exceed the listing's sum.
proof fn lemma_share_at_le_sum(g: Seq<(u64, Option<u64>)>, i: int)
    requires
        0 <= i < g.len(),
    ensures
        share_at(g, i) <= sum_member_shares(g),
    decreases g.len(),
{
    if i == g.len() - 1 {
        lemma_sum_member_shares_nonneg(g.drop_last());
    } else {
        lemma_share_at_le_sum(g.drop_last(), i);
        assert(g.drop_last()[i] == g[i]);
    }
}

/// The weighted floor shares sum to at most the scaled share sum, and
/// never below zero.
proof fn lemma_weighted_total_bounds(g: Seq<(u64, Option<u64>)>, amt: u64, issuance: u64)
    requires
        0 < issuance,
    ensures
        0 <= weighted_total(g, amt, issuance),
        weighted_total(g, amt, issuance) <= (amt * sum_member_shares(g)) / (issuance as int),
    decreases g.len(),
{
    if g.len() == 0 {
        lemma_div_of0(issuance as int);
    } else {
        let d = g.drop_last();
        let s = share_at(g, g.len() - 1);
        lemma_weighted_total_bounds(d, amt, issuance);
        lemma_sum_member_shares_nonneg(d);
        lemma_mul_nonnegative(amt as int, s as int);
        lemma_mul_nonnegative(amt as int, sum_member_shares(d));
        lemma_div_pos_is_pos((amt * s) as int, issuance as int);
        lemma_div_superadd(amt * sum_member_shares(d), (amt * s) as int, issuance as int);
        lemma_mul_is_distributive_add(amt as int, sum_member_shares(d), s as int);
    }
}

/// When the members' shares are covered by the issuance, the weighted
/// floor shares sum to at most the donation itself.
proof fn lemma_weighted_total_le_amt(g: Seq<(u64, Option<u64>)>, amt: u64, issuance: u64)
    requires
        0 < issuance,
        sum_member_shares(g) <= issuance,
    ensures
        0 <= weighted_total(g, amt, issuance) <= amt,
{
    lemma_weighted_total_bounds(g, amt, issuance);
    lemma_sum_member_shares_nonneg(g);
    lemma_mul_inequality(sum_member_shares(g), issuance as int, amt as int);
    lemma_div_is_ordered(amt * sum_member_shares(g), (amt * issuance) as int, issuance as int);
    lemma_div_multiples_vanish(amt as int, issuance as int);
}

/// The floor of `amount * shares / issuance`: one member's part of a
/// weighted donation. Exact fixed-point arithmetic, no approximation.
pub fn calculate_proportional_amount(amount: u64, shares: u64, issuance: u64) -> (r: u64)
    requires
        0 < issuance,
        shares <= issuance,
    ensures
        r == (amount * shares) / (issuance as int),
        r <= amount,
{
    proof {
        lemma_mul_upper_bound(amount as int, u64::MAX as int, shares as int, u64::MAX as int);
        lemma_mul_inequality(shares as int, issuance as int, amount as int);
        lemma_div_is_ordered((amount * shares) as int, (amount * issuance) as int, issuance as int);
        lemma_div_multiples_vanish(amount as int, issuance as int);
    }
    let numerator: u128 = (amount as u128) * (shares as u128);
    let q: u128 = numerator / (issuance as u128);
    q as u64
}

/// The floor of `amount / group_count`: one member's part of an equal
/// donation.
pub fn calculate_uniform_amount(amount: u64, group_count: usize) -> (r: u64)
    requires
        0 < group_count,
    ensures
        r == amount as int / group_count as int,
        r <= amount,
{
    proof {
        lemma_div_is_ordered(0, amount as int, group_count as int);
        lemma_div_pos_is_pos(amount as int, group_count as int);
        lemma_fundamental_div_mod(amount as int, group_count as int);
        lemma_mod_division_less_than_divisor(amount as int, group_count as int);
        lemma_mul_inequality(1, group_count as int, amount as int / group_count as int);
    }
    amount / (group_count as u64)
}

/// Resolves a donation into its transfer plan. The sender must cover the
/// amount, the organization must exist, and — in the weighted form —
/// every member must hold an ownership record; otherwise the matching
/// error comes back and nothing is owed. A member entry carries `None`
/// where the organization holds no ownership record for that account.
pub fn donate(
    sender_free: u64,
    recipient: OrgRep,
    group: Option<Vec<(u64, Option<u64>)>>,
    issuance: u64,
    amt: u64,
) -> (r: Result<DonationPlan, DonateError>)
    requires
        recipient is Weighted && group is Some ==> 0 < issuance && sum_member_shares(
            members_of(group),
        ) <= issuance,
        recipient is Equal && group is Some ==> members_of(group).len() > 0,
    ensures
        amt > sender_free <==> r == Err::<DonationPlan, DonateError>(DonateError::NotEnoughFundsInFreeToMakeTransfer),
        (amt <= sender_free && group is None) <==> r == Err::<DonationPlan, DonateError>(DonateError::CannotDonateToOrgThatDNE),
        (amt <= sender_free && group is Some && recipient is Weighted && !all_have_ownership(
            members_of(group),
        )) <==> r == Err::<DonationPlan, DonateError>(DonateError::AccountHasNoOwnershipInOrg),
        (amt <= sender_free && group is Some && recipient is Weighted && all_have_ownership(
            members_of(group),
        )) ==> (r matches Ok(plan) && weighted_plan_ok(members_of(group), amt, issuance, plan)),
        (amt <= sender_free && group is Some && recipient is Equal) ==> (r matches Ok(plan)
            && equal_plan_ok(members_of(group), amt, plan)),
{
    if amt > sender_free {
        return Err(DonateError::NotEnoughFundsInFreeToMakeTransfer);
    }
    let g = match &group {
        Some(g) => g,
        None => { return Err(DonateError::CannotDonateToOrgThatDNE) },
    };
    match recipient {
        OrgRep::Weighted(_org_id) => {
            let mut transfers: Vec<(u64, u64)> = Vec::new();
            let mut transferred: u64 = 0;
            let mut i: usize = 0;
            while i < g.len()
                invariant
                    amt <= sender_free,
                    group matches Some(gv) && gv == g,
                    recipient is Weighted,
                    0 < issuance,
                    sum_member_shares(g@) <= issuance,
                    i <= g.len(),
                    transfers@.len() == i as int,
                    forall|k: int|
                        0 <= k < i as int ==> transfers@[k].0 == g@[k].0 && transfers@[k].1 == (amt
                            * share_at(g@, k)) / (issuance as int) && g@[k].1 is Some,
                    transferred == weighted_total(g@.take(i as int), amt, issuance),
                decreases g.len() - i,
            {
                let entry = g[i];
                let sh: u64 = match entry.1 {
                    Some(s) => s,
                    None => {
                        assert(!all_have_ownership(g@)) by {
                            assert(g@[i as int].1 is None);
                        }
                        return Err(DonateError::AccountHasNoOwnershipInOrg);
                    },
                };
                proof {
                    lemma_share_at_le_sum(g@, i as int);
                    assert(g@.take(i + 1).drop_last() == g@.take(i as int));
                    assert(g@.take(i + 1)[i as int] == g@[i as int]);
                    lemma_sum_member_shares_take_le(g@, i + 1);
                    lemma_weighted_total_le_amt(g@.take(i + 1), amt, issuance);
                    lemma_weighted_total_bounds(g@.take(i as int), amt, issuance);
                }
                let due = calculate_proportional_amount(amt, sh, issuance);
                transfers.push((entry.0, due));
                transferred = transferred + due;
                i = i + 1;
            }
            proof {
                assert(g@.take(g@.len() as int) == g@);
                lemma_weighted_total_le_amt(g@, amt, issuance);
            }
            let remainder: u64 = amt - transferred;
            Ok(DonationPlan { transfers, amt_to_org: transferred, remainder })
        },
        OrgRep::Equal(_org_id) => {
            let pay = calculate_uniform_amount(amt, g.len());
            let mut transfers: Vec<(u64, u64)> = Vec::new();
            let mut transferred: u64 = 0;
            let mut i: usize = 0;
            proof {
                lemma_fundamental_div_mod(amt as int, g@.len() as int);
                lemma_mod_division_less_than_divisor(amt as int, g@.len() as int);
            }
            while i < g.len()
                invariant
                    amt <= sender_free,
                    group matches Some(gv) && gv == g,
                    recipient is Equal,
                    g@.len() > 0,
                    pay == amt as int / g@.len() as int,
                    g@.len() * (amt as int / g@.len() as int) <= amt,
                    i <= g.len(),
                    transfers@.len() == i as int,
                    forall|k: int|
                        0 <= k < i as int ==> transfers@[k].0 == g@[k].0 && transfers@[k].1 == pay,
                    transferred == i as int * pay,
                decreases g.len() - i,
            {
                proof {
                    lemma_mul_inequality(i + 1, g@.len() as int, pay as int);
                    lemma_mul_is_distributive_add_other_way(pay as int, i as int, 1);
                }
                let entry = g[i];
                transfers.push((entry.0, pay));
                transferred = transferred + pay;
                i = i + 1;
            }
            let remainder: u64 = amt - transferred;
            Ok(DonationPlan { transfers, amt_to_org: transferred, remainder })
        },
    }
}

} // verus!
