//! The signs that the members of a set of floats may have.
use vstd::prelude::*;

verus! {

/// Which signs are possible. There is no fourth state: a set of floats always
/// admits at least one sign.
#[derive(Debug, Clone, Copy, PartialEq, Eq, Structural)]
pub enum Range {
    /// Both signs are possible.
    Full,
    /// Only negative members.
    Negative,
    /// Only positive members.
    Positive,
}

impl Range {
    /// The range seen through negation.
    pub open spec fn spec_opposite(&self) -> Range {
        match *self {
            Range::Full => Range::Full,
            Range::Negative => Range::Positive,
            Range::Positive => Range::Negative,
        }
    }

    /// Whether a positive member is possible.
    pub open spec fn spec_can_be_positive(&self) -> bool {
        *self != Range::Negative
    }

    /// Whether a negative member is possible.
    pub open spec fn spec_can_be_negative(&self) -> bool {
        *self != Range::Positive
    }

    /// `self` allows no sign that `other` forbids.
    pub open spec fn within(&self, other: Range) -> bool {
        &&& self.can_be_positive() ==> other.can_be_positive()
        &&& self.can_be_negative() ==> other.can_be_negative()
    }

    /// The least range that allows every sign allowed by `self` or by `other`.
    pub open spec fn spec_join(&self, other: Range) -> Range {
        if *self == other {
            *self
        } else {
            Range::Full
        }
    }

    /// The range of a product or quotient whose operands have these ranges.
    pub open spec fn spec_product(&self, other: Range) -> Range {
        if *self == Range::Full || other == Range::Full {
            Range::Full
        } else if *self == other {
            Range::Positive
        } else {
            Range::Negative
        }
    }

    /// Whether a member of `self` and a member of `other` may have the same sign.
    pub open spec fn spec_can_agree(&self, other: Range) -> bool {
        ||| self.spec_can_be_positive() && other.spec_can_be_positive()
        ||| self.spec_can_be_negative() && other.spec_can_be_negative()
    }

    /// Whether a member of `self` and a member of `other` may have opposite signs.
    pub open spec fn spec_can_oppose(&self, other: Range) -> bool {
        ||| self.spec_can_be_positive() && other.spec_can_be_negative()
        ||| self.spec_can_be_negative() && other.spec_can_be_positive()
    }

    /// Builds the range that allows exactly the given signs; `None` when no
    /// sign is allowed.
    pub open spec fn spec_from_signs(positive: bool, negative: bool) -> Option<Range> {
        if positive && negative {
            Some(Range::Full)
        } else if positive {
            Some(Range::Positive)
        } else if negative {
            Some(Range::Negative)
        } else {
            None
        }
    }

    #[verifier::when_used_as_spec(spec_opposite)]
    pub fn opposite(&self) -> (res: Range)
        ensures
            res == self.spec_opposite(),
    {
        match self {
            Range::Full => Range::Full,
            Range::Negative => Range::Positive,
            Range::Positive => Range::Negative,
        }
    }

    #[verifier::when_used_as_spec(spec_can_be_positive)]
    pub fn can_be_positive(&self) -> (res: bool)
        ensures
            res == self.spec_can_be_positive(),
    {
        match self {
            Range::Full | Range::Positive => true,
            Range::Negative => false,
        }
    }

    #[verifier::when_used_as_spec(spec_can_be_negative)]
    pub fn can_be_negative(&self) -> (res: bool)
        ensures
            res == self.spec_can_be_negative(),
    {
        match self {
            Range::Full | Range::Negative => true,
            Range::Positive => false,
        }
    }

    /// Decides whether `self` allows no sign that `other` forbids.
    pub fn is_within(&self, other: Range) -> (res: bool)
        ensures
            res == self.within(other),
    {
        (!self.can_be_positive() || other.can_be_positive()) && (!self.can_be_negative()
            || other.can_be_negative())
    }

    #[verifier::when_used_as_spec(spec_join)]
    pub fn join(&self, other: Range) -> (res: Range)
        ensures
            res == self.spec_join(other),
    {
        match (*self, other) {
            (Range::Positive, Range::Positive) => Range::Positive,
            (Range::Negative, Range::Negative) => Range::Negative,
            _ => Range::Full,
        }
    }

    #[verifier::when_used_as_spec(spec_product)]
    pub fn product(&self, other: Range) -> (res: Range)
        ensures
            res == self.spec_product(other),
    {
        match (*self, other) {
            (Range::Positive, Range::Positive) | (Range::Negative, Range::Negative) => Range::Positive,
            (Range::Positive, Range::Negative) | (Range::Negative, Range::Positive) => Range::Negative,
            _ => Range::Full,
        }
    }

    #[verifier::when_used_as_spec(spec_can_agree)]
    pub fn can_agree(&self, other: Range) -> (res: bool)
        ensures
            res == self.spec_can_agree(other),
    {
        (self.can_be_positive() && other.can_be_positive())
            || (self.can_be_negative() && other.can_be_negative())
    }

    #[verifier::when_used_as_spec(spec_can_oppose)]
    pub fn can_oppose(&self, other: Range) -> (res: bool)
        ensures
            res == self.spec_can_oppose(other),
    {
        (self.can_be_positive() && other.can_be_negative())
            || (self.can_be_negative() && other.can_be_positive())
    }

    /// The range that allows exactly the given signs, if any sign is allowed.
    #[verifier::when_used_as_spec(spec_from_signs)]
    pub fn from_signs(positive: bool, negative: bool) -> (res: Option<Range>)
        ensures
            res == Range::spec_from_signs(positive, negative),
            res is None <==> !positive && !negative,
            res matches Some(r) ==> r.can_be_positive() == positive && r.can_be_negative()
                == negative,
    {
        if positive && negative {
            Some(Range::Full)
        } else if positive {
            Some(Range::Positive)
        } else if negative {
            Some(Range::Negative)
        } else {
            None
        }
    }
}

impl Default for Range {
    fn default() -> (res: Range)
        ensures
            res == Range::Full,
    {
        Range::Full
    }
}

} // verus!
