//! Organization representation: whether an organization is addressed with
//! member weights proportional to share ownership, or with every member
//! counted equally.

use vstd::prelude::*;

verus! {

/// How an organization's members are weighted when it acts as one body.
#[derive(Clone, Copy, Debug, PartialEq, Eq, Structural)]
pub enum OrgRep {
    /// Weight each member by share ownership
    Weighted(u64),
    /// Weight every member equally
    Equal(u64),
}

impl OrgRep {
    pub fn org(&self) -> (r: u64)
        ensures
            r == match *self {
                OrgRep::Weighted(o) => o,
                OrgRep::Equal(o) => o,
            },
    {
        match *self {
            OrgRep::Weighted(o) => o,
            OrgRep::Equal(o) => o,
        }
    }
}

} // verus!
