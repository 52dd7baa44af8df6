//! Trust levels reported by the reputation service.

use vstd::prelude::*;

verus! {

/// Trust level reported by the reputation service, ordered from least to most trusted.
#[derive(Clone, Copy, Debug, PartialEq, Eq, Structural)]
pub enum TrustLevel {
    Visitor,
    Member,
    Regular,
    Staff,
}

/// The trust level that a reputation code stands for: codes past the last
/// labelled level saturate at the top level.
pub open spec fn level_of(code: u64) -> TrustLevel {
    if code == 0 {
        TrustLevel::Visitor
    } else if code == 1 {
        TrustLevel::Member
    } else if code == 2 {
        TrustLevel::Regular
    } else {
        TrustLevel::Staff
    }
}

/// Display name of a trust level.
pub open spec fn level_name(level: TrustLevel) -> Seq<char> {
    match level {
        TrustLevel::Visitor => "Visitor"@,
        TrustLevel::Member => "Member"@,
        TrustLevel::Regular => "Regular"@,
        TrustLevel::Staff => "Staff"@,
    }
}

/// Classifies a raw reputation code: 0 to 2 map to the first three levels,
/// and every larger code to the top level.
pub fn classify(code: u64) -> (r: TrustLevel)
    ensures
        r == level_of(code),
{
    match code {
        0 => TrustLevel::Visitor,
        1 => TrustLevel::Member,
        2 => TrustLevel::Regular,
        _ => TrustLevel::Staff,
    }
}

impl TrustLevel {
    /// The level's display name.
    pub fn name(&self) -> (r: &'static str)
        ensures
            r@ == level_name(*self),
    {
        match self {
            TrustLevel::Visitor => "Visitor",
            TrustLevel::Member => "Member",
            TrustLevel::Regular => "Regular",
            TrustLevel::Staff => "Staff",
        }
    }
}

} // verus!
