//! The client-side command descriptions: plain records of what a caller
//! asks the chain to do. Parsing account strings, signing and sending
//! them is the surrounding client's work, not the library's.

use vstd::prelude::*;

verus! {

/// Register a flat organization: every member of equal weight.
#[derive(Clone, Debug)]
pub struct OrgRegisterFlatCommand {
    pub constitution: String,
    pub sudo: Option<String>,
    pub parent_org: Option<u64>,
    pub members: Vec<String>,
}

/// Issue shares to one account of an organization.
#[derive(Clone, Debug)]
pub struct SharesIssueCommand {
    pub organization: u64,
    pub dest: String,
    pub shares: u64,
}

/// Burn shares from one account of an organization.
#[derive(Clone, Debug)]
pub struct SharesBurnCommand {
    pub organization: u64,
    pub burner: String,
    pub shares: u64,
}

/// Reserve an account's shares for a vote.
#[derive(Clone, Debug)]
pub struct SharesReserveCommand {
    pub organization: u64,
    pub who: String,
}

/// Release a reservation on an account's shares.
#[derive(Clone, Debug)]
pub struct SharesUnReserveCommand {
    pub organization: u64,
    pub who: String,
}

/// Lock an account's shares against use in new votes.
#[derive(Clone, Debug)]
pub struct SharesLockCommand {
    pub organization: u64,
    pub who: String,
}

/// Unlock an account's shares.
#[derive(Clone, Debug)]
pub struct SharesUnLockCommand {
    pub organization: u64,
    pub who: String,
}

} // verus!
