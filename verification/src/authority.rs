//! The authority scale: a closed, totally ordered set of permission
//! levels. Every comparison between levels goes through the numeric rank
//! and nothing else.

use vstd::prelude::*;

verus! {

/// A permission level. The ranks ascend from least to most privileged,
/// with gaps left so that new levels can be inserted without renumbering.
#[derive(Clone, Copy, Debug, PartialEq, Eq, Structural)]
pub enum Authority {
    /// An unauthenticated visitor.
    Tourist,
    /// A registered user.
    User,
    /// The judging machine.
    Judger,
    /// An administrator.
    Admin,
}

impl Authority {
    /// The numeric rank that defines the order of the scale.
    pub open spec fn rank_spec(self) -> int {
        match self {
            Authority::Tourist => 0,
            Authority::User => 10,
            Authority::Judger => 20,
            Authority::Admin => 30,
        }
    }

    /// `self` is at least as privileged as `other`: the one ordering
    /// every component must use.
    pub open spec fn ge_spec(self, other: Authority) -> bool {
        self.rank_spec() >= other.rank_spec()
    }

    /// The rank as a machine integer.
    pub fn rank(self) -> (r: u16)
        ensures
            r as int == self.rank_spec(),
    {
        match self {
            Authority::Tourist => 0,
            Authority::User => 10,
            Authority::Judger => 20,
            Authority::Admin => 30,
        }
    }

    /// Compares two levels by rank alone.
    pub fn ge(self, other: Authority) -> (r: bool)
        ensures
            r == self.ge_spec(other),
    {
        self.rank() >= other.rank()
    }
}

/// The level whose rank is `r`, if the scale has one.
pub open spec fn authority_of_rank(r: int) -> Option<Authority> {
    if r == 0 {
        Some(Authority::Tourist)
    } else if r == 10 {
        Some(Authority::User)
    } else if r == 20 {
        Some(Authority::Judger)
    } else if r == 30 {
        Some(Authority::Admin)
    } else {
        None
    }
}

/// Recovers a level from a rank read off the wire; ranks outside the
/// scale are rejected.
pub fn authority_from_rank(r: i64) -> (a: Option<Authority>)
    ensures
        a == authority_of_rank(r as int),
{
    if r == 0 {
        Some(Authority::Tourist)
    } else if r == 10 {
        Some(Authority::User)
    } else if r == 20 {
        Some(Authority::Judger)
    } else if r == 30 {
        Some(Authority::Admin)
    } else {
        None
    }
}

/// The scale is ordered by rank and by rank alone: `a` is at least `b`
/// exactly when `rank(a) >= rank(b)`. In particular `Admin` is at least
/// every level, and `Tourist` is at least only `Tourist`.
pub proof fn lemma_order_monotone(a: Authority, b: Authority)
    ensures
        a.ge_spec(b) <==> a.rank_spec() >= b.rank_spec(),
        Authority::Admin.ge_spec(b),
        Authority::Tourist.ge_spec(b) <==> b == Authority::Tourist,
{
}

/// Ranks identify levels: distinct levels never share a rank, so
/// `authority_of_rank` inverts `rank_spec`.
pub proof fn lemma_rank_injective(a: Authority)
    ensures
        authority_of_rank(a.rank_spec()) == Some(a),
{
}

} // verus!
