//! Plain records handed across the client boundary: what a bounty and a
//! bounty submission look like to an outside consumer.

use vstd::prelude::*;

verus! {

/// A posted bounty as the client reports it.
#[derive(Clone, Debug)]
pub struct BountyInformation {
    pub id: u64,
    pub repo_owner: String,
    pub repo_name: String,
    pub issue_number: u64,
    pub depositer: String,
    pub total: u128,
}

/// A submission against a bounty as the client reports it.
#[derive(Clone, Debug)]
pub struct BountySubmissionInformation {
    pub id: u64,
    pub repo_owner: String,
    pub repo_name: String,
    pub issue_number: u64,
    pub bounty_id: u64,
    pub submitter: String,
    pub amount: u128,
    pub awaiting_review: bool,
    pub approved: bool,
}

} // verus!
