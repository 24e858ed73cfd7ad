//! The logical change kinds and their ordinals.

use vstd::prelude::*;

verus! {

/// What happened to a path, as the handler is told.
///
/// The variants are declared in the order of their ordinals, which the
/// handler's side of the boundary knows by number: `OVERFLOW` is 0, `CREATE`
/// is 1, `DELETE` is 2 and `MODIFY` is 3.
#[allow(non_camel_case_types)]
#[derive(Clone, Copy, Debug, PartialEq, Eq, Hash, Structural)]
pub enum Kind {
    /// Too much changed to report one by one: the subtree must be rescanned.
    OVERFLOW,
    /// The path came into being.
    CREATE,
    /// The path went away.
    DELETE,
    /// Content or metadata of the path changed.
    MODIFY,
}

impl Kind {
    /// The number that stands for this kind across the boundary.
    pub open spec fn ordinal_of(self) -> int {
        match self {
            Kind::OVERFLOW => 0,
            Kind::CREATE => 1,
            Kind::DELETE => 2,
            Kind::MODIFY => 3,
        }
    }

    /// The kind that a number stands for, if any.
    pub open spec fn of_ordinal(n: int) -> Option<Kind> {
        if n == 0 {
            Some(Kind::OVERFLOW)
        } else if n == 1 {
            Some(Kind::CREATE)
        } else if n == 2 {
            Some(Kind::DELETE)
        } else if n == 3 {
            Some(Kind::MODIFY)
        } else {
            None
        }
    }

    /// The ordinal of this kind: 0 for `OVERFLOW`, 1 for `CREATE`, 2 for
    /// `DELETE`, 3 for `MODIFY`.
    pub fn ordinal(self) -> (n: i32)
        ensures
            n == self.ordinal_of(),
            self == Kind::OVERFLOW ==> n == 0,
            self == Kind::CREATE ==> n == 1,
            self == Kind::DELETE ==> n == 2,
            self == Kind::MODIFY ==> n == 3,
    {
        match self {
            Kind::OVERFLOW => 0,
            Kind::CREATE => 1,
            Kind::DELETE => 2,
            Kind::MODIFY => 3,
        }
    }

    /// The kind with the given ordinal, or `None` where the number is not
    /// one of the four ordinals.
    pub fn from_ordinal(n: i32) -> (kind: Option<Kind>)
        ensures
            kind == Kind::of_ordinal(n as int),
            kind is Some <==> 0 <= n <= 3,
    {
        if n == 0 {
            Some(Kind::OVERFLOW)
        } else if n == 1 {
            Some(Kind::CREATE)
        } else if n == 2 {
            Some(Kind::DELETE)
        } else if n == 3 {
            Some(Kind::MODIFY)
        } else {
            None
        }
    }
}

/// Every kind is found again from its ordinal, and the ordinals are the
/// numbers 0 to 3.
pub proof fn lemma_ordinal_round_trip(kind: Kind)
    ensures
        0 <= kind.ordinal_of() <= 3,
        Kind::of_ordinal(kind.ordinal_of()) == Some(kind),
{
}

/// A number that stands for a kind is the ordinal of that kind.
pub proof fn lemma_of_ordinal_inverts(n: int)
    ensures
        Kind::of_ordinal(n) matches Some(kind) ==> kind.ordinal_of() == n,
        Kind::of_ordinal(n) is Some <==> 0 <= n <= 3,
{
}

/// Two kinds with the same ordinal are the same kind.
pub proof fn lemma_ordinal_injective(a: Kind, b: Kind)
    requires
        a.ordinal_of() == b.ordinal_of(),
    ensures
        a == b,
{
}

} // verus!
