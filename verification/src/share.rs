//! Share ownership: the per-account profile that carries a member's share
//! balance, reservation count and lock flag, and the genesis listing that
//! seeds a weighted organization.

use vstd::prelude::*;

verus! {

/// A member's share holding in one organization: the share total that
/// weighs the member's ballots, how many live votes have reserved it, and
/// whether it is locked against use in a new vote (enforced by consumers,
/// not by this type).
#[derive(Clone, Copy, Debug, PartialEq, Eq, Structural)]
pub struct ShareProfile {
    /// The total number of shares owned by this participant
    pub total: u64,
    /// How many live votes currently use these shares
    pub times_reserved: u32,
    /// Whether the shares may be used in another vote
    pub locked: bool,
}

impl Default for ShareProfile {
    /// One share, unreserved and unlocked: the flat, equal-weight default.
    fn default() -> (r: ShareProfile)
        ensures
            r == (ShareProfile { total: 1u64, times_reserved: 0u32, locked: false }),
    {
        ShareProfile { total: 1, times_reserved: 0, locked: false }
    }
}

impl ShareProfile {
    pub fn total(&self) -> (r: u64)
        ensures
            r == self.total,
    {
        self.total
    }

    pub fn times_reserved(&self) -> (r: u32)
        ensures
            r == self.times_reserved,
    {
        self.times_reserved
    }

    pub fn is_zero(&self) -> (r: bool)
        ensures
            r == (self.total == 0),
    {
        self.total == 0
    }

    /// A fresh profile holding the given total, unreserved and unlocked.
    pub fn new_shares(total: u64) -> (r: ShareProfile)
        ensures
            r == (ShareProfile { total, times_reserved: 0u32, locked: false }),
    {
        ShareProfile { total, times_reserved: 0, locked: false }
    }

    /// Issuance: raises the share total by the given amount.
    pub fn add_shares(self, amount: u64) -> (r: ShareProfile)
        requires
            self.total + amount <= u64::MAX,
        ensures
            r == (ShareProfile { total: (self.total + amount) as u64, ..self }),
    {
        let total: u64 = self.total + amount;
        ShareProfile { total, ..self }
    }

    /// Burn: lowers the share total by the given amount.
    pub fn subtract_shares(self, amount: u64) -> (r: ShareProfile)
        requires
            amount <= self.total,
        ensures
            r == (ShareProfile { total: (self.total - amount) as u64, ..self }),
    {
        let total: u64 = self.total - amount;
        ShareProfile { total, ..self }
    }

    /// Records one more live vote using these shares.
    pub fn increment_times_reserved(self) -> (r: ShareProfile)
        requires
            self.times_reserved < u32::MAX,
        ensures
            r == (ShareProfile { times_reserved: (self.times_reserved + 1) as u32, ..self }),
    {
        let times_reserved: u32 = self.times_reserved + 1;
        ShareProfile { times_reserved, ..self }
    }

    /// Releases one reservation.
    pub fn decrement_times_reserved(self) -> (r: ShareProfile)
        requires
            self.times_reserved >= 1,
        ensures
            r == (ShareProfile { times_reserved: (self.times_reserved - 1) as u32, ..self }),
    {
        let times_reserved: u32 = self.times_reserved - 1;
        ShareProfile { times_reserved, ..self }
    }

    pub fn lock(self) -> (r: ShareProfile)
        ensures
            r == (ShareProfile { locked: true, ..self }),
    {
        ShareProfile { locked: true, ..self }
    }

    pub fn unlock(self) -> (r: ShareProfile)
        ensures
            r == (ShareProfile { locked: false, ..self }),
    {
        ShareProfile { locked: false, ..self }
    }

    pub fn is_unlocked(&self) -> (r: bool)
        ensures
            r == !self.locked,
    {
        !self.locked
    }
}

/// Reserving a profile and then releasing the reservation restores the
/// profile exactly.
pub proof fn lemma_reserve_then_release_identity(p: ShareProfile)
    requires
        p.times_reserved < u32::MAX,
    ensures
        ({
            let q = ShareProfile { times_reserved: (p.times_reserved + 1) as u32, ..p };
            ShareProfile { times_reserved: (q.times_reserved - 1) as u32, ..q } == p
        }),
{
}

/// The sum of the share column of an ownership listing.
pub open spec fn sum_shares(s: Seq<(u64, u64)>) -> int
    decreases s.len(),
{
    if s.len() == 0 {
        0
    } else {
        sum_shares(s.drop_last()) + s.last().1
    }
}

/// An ownership listing with consecutive repeated entries collapsed to
/// one. Only adjacency is considered: callers group duplicates first.
pub open spec fn dedup_adjacent(s: Seq<(u64, u64)>) -> Seq<(u64, u64)>
    decreases s.len(),
{
    if s.len() <= 1 {
        s
    } else if s.last() == s[s.len() - 2] {
        dedup_adjacent(s.drop_last())
    } else {
        dedup_adjacent(s.drop_last()).push(s.last())
    }
}

/// Every prefix of an ownership listing sums to at most the whole.
proof fn lemma_sum_shares_take_le(s: Seq<(u64, u64)>, j: int)
    requires
        0 <= j <= s.len(),
    ensures
        sum_shares(s.take(j)) <= sum_shares(s),
    decreases s.len() - j,
{
    if j == s.len() {
        assert(s.take(j) == s);
    } else {
        assert(s.take(j + 1).drop_last() == s.take(j));
        lemma_sum_shares_take_le(s, j + 1);
    }
}

/// The ownership listing of a weighted organization at genesis, with the
/// share total it is supposed to sum to.
#[derive(Clone, Debug, PartialEq, Eq)]
pub struct SimpleShareGenesis {
    pub total: u64,
    pub account_ownership: Vec<(u64, u64)>,
}

impl Default for SimpleShareGenesis {
    fn default() -> (r: SimpleShareGenesis)
        ensures
            r.total == 0,
            r.account_ownership@ == Seq::<(u64, u64)>::empty(),
    {
        SimpleShareGenesis { total: 0, account_ownership: Vec::new() }
    }
}

impl SimpleShareGenesis {
    pub fn total(&self) -> (r: u64)
        ensures
            r == self.total,
    {
        self.total
    }

    pub fn account_ownership(&self) -> (r: Vec<(u64, u64)>)
        ensures
            r@ == self.account_ownership@,
    {
        let mut out: Vec<(u64, u64)> = Vec::new();
        let mut i: usize = 0;
        while i < self.account_ownership.len()
            invariant
                i <= self.account_ownership.len(),
                out@ == self.account_ownership@.take(i as int),
            decreases self.account_ownership.len() - i,
        {
            out.push(self.account_ownership[i]);
            assert(self.account_ownership@.take(i + 1).drop_last() == self.account_ownership@.take(
                i as int,
            ));
            i = i + 1;
        }
        assert(self.account_ownership@.take(self.account_ownership@.len() as int)
            == self.account_ownership@);
        out
    }

    /// Builds the genesis from a raw listing: consecutive repeated entries
    /// are collapsed, and the recorded total is the sum of what remains.
    pub fn from(genesis: Vec<(u64, u64)>) -> (r: SimpleShareGenesis)
        requires
            sum_shares(dedup_adjacent(genesis@)) <= u64::MAX,
        ensures
            r.account_ownership@ == dedup_adjacent(genesis@),
            r.total == sum_shares(dedup_adjacent(genesis@)),
    {
        let mut deduped: Vec<(u64, u64)> = Vec::new();
        let mut i: usize = 0;
        while i < genesis.len()
            invariant
                i <= genesis.len(),
                deduped@ == dedup_adjacent(genesis@.take(i as int)),
            decreases genesis.len() - i,
        {
            let pair = genesis[i];
            let repeat: bool = if i > 0 {
                let prev = genesis[i - 1];
                prev.0 == pair.0 && prev.1 == pair.1
            } else {
                false
            };
            assert(genesis@.take(i + 1).drop_last() == genesis@.take(i as int));
            if !repeat {
                deduped.push(pair);
            }
            i = i + 1;
        }
        assert(genesis@.take(genesis@.len() as int) == genesis@);
        let mut total: u64 = 0;
        let mut j: usize = 0;
        while j < deduped.len()
            invariant
                j <= deduped.len(),
                total == sum_shares(deduped@.take(j as int)),
                deduped@ == dedup_adjacent(genesis@),
                sum_shares(dedup_adjacent(genesis@)) <= u64::MAX,
            decreases deduped.len() - j,
        {
            assert(deduped@.take(j + 1).drop_last() == deduped@.take(j as int));
            proof {
                lemma_sum_shares_take_le(deduped@, j + 1);
            }
            total = total + deduped[j].1;
            j = j + 1;
        }
        assert(deduped@.take(deduped@.len() as int) == deduped@);
        SimpleShareGenesis { total, account_ownership: deduped }
    }

    /// Whether the recorded total equals the sum of the listing's shares:
    /// the shape every well-formed genesis must have.
    pub fn verify_shape(&self) -> (r: bool)
        ensures
            r == (self.total == sum_shares(self.account_ownership@)),
    {
        let ownership = &self.account_ownership;
        let mut sum: u128 = 0;
        let mut j: usize = 0;
        while j < ownership.len()
            invariant
                j <= ownership.len(),
                sum == sum_shares(ownership@.take(j as int)),
                sum <= (j as int) * (u64::MAX as int),
            decreases ownership.len() - j,
        {
            assert(ownership@.take(j + 1).drop_last() == ownership@.take(j as int));
            proof {
                vstd::arithmetic::mul::lemma_mul_inequality(
                    j + 1,
                    ownership@.len() as int,
                    u64::MAX as int,
                );
                vstd::arithmetic::mul::lemma_mul_inequality(
                    ownership@.len() as int,
                    u64::MAX as int,
                    u64::MAX as int,
                );
            }
            sum = sum + (ownership[j].1 as u128);
            j = j + 1;
        }
        assert(ownership@.take(ownership@.len() as int) == ownership@);
        sum == (self.total as u128)
    }
}

} // verus!
