//! The categories of refined floats: what each accepts, and how they compare.
use vstd::prelude::*;
use crate::possibilities::FloatPossibilities;
use crate::range::Range;

verus! {

/// The acceptance predicate of a category: which kinds of value a float of
/// the category may be.
#[derive(Debug, Clone, Copy, PartialEq, Eq, Structural)]
pub struct FloatSpecifications {
    pub accept_nan: bool,
    pub accept_inf: bool,
    pub accept_zero: bool,
    pub accept_positive: bool,
    pub accept_negative: bool,
}

/// A named category.
#[derive(Debug, Clone, Copy, PartialEq, Eq)]
pub struct FloatDefinition {
    /// The name of the refined type.
    pub name: &'static str,
    /// What the category accepts.
    pub s: FloatSpecifications,
}

impl FloatSpecifications {
    /// The category can hold every value of a set described by `c`.
    pub open spec fn spec_covers(&self, c: FloatPossibilities) -> bool {
        &&& c.nan ==> self.accept_nan
        &&& c.zero ==> self.accept_zero
        &&& c.infinite ==> self.accept_inf
        &&& c.range.can_be_positive() ==> self.accept_positive
        &&& c.range.can_be_negative() ==> self.accept_negative
    }

    /// The category accepts a sign, and so covers some description.
    pub open spec fn spec_is_inhabited(&self) -> bool {
        self.accept_positive || self.accept_negative
    }

    /// The widest description that the category covers: every flag that it
    /// accepts is set. Meaningful for an inhabited category.
    pub open spec fn spec_worst_case(&self) -> FloatPossibilities {
        FloatPossibilities {
            nan: self.accept_nan,
            zero: self.accept_zero,
            infinite: self.accept_inf,
            range: match Range::from_signs(self.accept_positive, self.accept_negative) {
                Some(r) => r,
                None => Range::Full,
            },
        }
    }

    /// The acceptance order: `self` is at least as restrictive as `other`,
    /// that is, `other` covers every description that `self` covers.
    pub open spec fn within(&self, other: FloatSpecifications) -> bool {
        forall|c: FloatPossibilities| self.spec_covers(c) ==> other.spec_covers(c)
    }

    /// `self` is more restrictive than `other`.
    pub open spec fn spec_strictly_within(&self, other: FloatSpecifications) -> bool {
        self.within(other) && !other.within(*self)
    }

    /// The acceptance order read off the flags: a category that covers
    /// nothing is within every other; an inhabited one is within those that
    /// accept whatever it accepts.
    pub open spec fn spec_is_within(&self, other: FloatSpecifications) -> bool {
        !self.spec_is_inhabited() || {
            &&& self.accept_nan ==> other.accept_nan
            &&& self.accept_zero ==> other.accept_zero
            &&& self.accept_inf ==> other.accept_inf
            &&& self.accept_positive ==> other.accept_positive
            &&& self.accept_negative ==> other.accept_negative
        }
    }

    /// How many kinds of value the category accepts.
    pub open spec fn weight(&self) -> nat {
        let nan: nat = if self.accept_nan { 1 } else { 0 };
        let zero: nat = if self.accept_zero { 1 } else { 0 };
        let inf: nat = if self.accept_inf { 1 } else { 0 };
        let positive: nat = if self.accept_positive { 1 } else { 0 };
        let negative: nat = if self.accept_negative { 1 } else { 0 };
        nan + zero + inf + positive + negative
    }

    /// The flags decide the acceptance order.
    pub proof fn lemma_within_by_flags(&self, other: FloatSpecifications)
        ensures
            self.within(other) <==> self.spec_is_within(other),
    {
        if self.within(other) && self.spec_is_inhabited() {
            assert(self.spec_covers(self.spec_worst_case()));
            assert(other.spec_covers(self.spec_worst_case()));
        }
    }

    /// An inhabited category accepts fewer kinds of value than any category
    /// that it is strictly within.
    pub proof fn lemma_strictly_within_weighs_less(&self, other: FloatSpecifications)
        requires
            self.spec_is_inhabited(),
            self.spec_strictly_within(other),
        ensures
            self.weight() < other.weight(),
    {
        self.lemma_within_by_flags(other);
        other.lemma_within_by_flags(*self);
    }

    /// An inhabited category covers its own worst case, and every
    /// description that it covers is within that worst case.
    pub proof fn lemma_worst_case_is_widest(&self, c: FloatPossibilities)
        requires
            self.spec_is_inhabited(),
        ensures
            self.spec_covers(self.spec_worst_case()),
            self.spec_covers(c) <==> c.within(self.spec_worst_case()),
    {
    }

    #[verifier::when_used_as_spec(spec_covers)]
    pub fn covers(&self, c: FloatPossibilities) -> (res: bool)
        ensures
            res == self.spec_covers(c),
    {
        (!c.nan || self.accept_nan) && (!c.zero || self.accept_zero) && (!c.infinite
            || self.accept_inf) && (!c.range.can_be_positive() || self.accept_positive) && (
        !c.range.can_be_negative() || self.accept_negative)
    }

    #[verifier::when_used_as_spec(spec_is_inhabited)]
    pub fn is_inhabited(&self) -> (res: bool)
        ensures
            res == self.spec_is_inhabited(),
    {
        self.accept_positive || self.accept_negative
    }

    /// Reads the acceptance predicate as a description: each flag is set
    /// wherever the category accepts it.
    #[verifier::when_used_as_spec(spec_worst_case)]
    pub fn worst_case(&self) -> (res: FloatPossibilities)
        requires
            self.is_inhabited(),
        ensures
            res == self.spec_worst_case(),
            res.nan == self.accept_nan,
            res.zero == self.accept_zero,
            res.infinite == self.accept_inf,
            res.range.can_be_positive() == self.accept_positive,
            res.range.can_be_negative() == self.accept_negative,
    {
        let range = match Range::from_signs(self.accept_positive, self.accept_negative) {
            Some(r) => r,
            None => Range::Full,
        };
        FloatPossibilities {
            nan: self.accept_nan,
            zero: self.accept_zero,
            infinite: self.accept_inf,
            range,
        }
    }

    /// Decides the acceptance order.
    #[verifier::when_used_as_spec(spec_is_within)]
    pub fn is_within(&self, other: FloatSpecifications) -> (res: bool)
        ensures
            res == self.within(other),
            res == self.spec_is_within(other),
    {
        proof {
            self.lemma_within_by_flags(other);
        }
        !self.is_inhabited() || ((!self.accept_nan || other.accept_nan) && (!self.accept_zero
            || other.accept_zero) && (!self.accept_inf || other.accept_inf) && (
        !self.accept_positive || other.accept_positive) && (!self.accept_negative
            || other.accept_negative))
    }

    /// Decides the strict acceptance order.
    #[verifier::when_used_as_spec(spec_strictly_within)]
    pub fn strictly_within(&self, other: FloatSpecifications) -> (res: bool)
        ensures
            res == self.spec_strictly_within(other),
    {
        self.is_within(other) && !other.is_within(*self)
    }
}

} // verus!
