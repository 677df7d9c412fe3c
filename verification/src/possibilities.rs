//! What is known of a set of floats, and the width it is tagged with.
use vstd::prelude::*;
use crate::range::Range;

verus! {

/// An over-approximate description of a set of floats. A flag that is `true`
/// says that the set may hold such a value; a flag that is `false` says that
/// it holds none. A flag has these two states only: a third one, for values
/// that only a rounding error can reach, is left for later.
#[derive(Debug, Clone, Copy, PartialEq, Eq, Structural)]
pub struct FloatPossibilities {
    /// The set may hold NaN.
    pub nan: bool,
    /// The set may hold a zero, of either sign.
    pub zero: bool,
    /// The set may hold an infinity.
    pub infinite: bool,
    /// The signs that members of the set may have.
    pub range: Range,
}

impl FloatPossibilities {
    /// `self` describes a subset of what `other` describes: every flag set in
    /// `self` is set in `other`, and every sign allowed by `self` is allowed
    /// by `other`.
    pub open spec fn within(&self, other: FloatPossibilities) -> bool {
        &&& self.nan ==> other.nan
        &&& self.zero ==> other.zero
        &&& self.infinite ==> other.infinite
        &&& self.range.within(other.range)
    }

    /// Decides whether `self` describes a subset of what `other` describes.
    pub fn is_within(&self, other: FloatPossibilities) -> (res: bool)
        ensures
            res == self.within(other),
    {
        (!self.nan || other.nan) && (!self.zero || other.zero) && (!self.infinite
            || other.infinite) && self.range.is_within(other.range)
    }
}

impl Default for FloatPossibilities {
    /// The description of an unconstrained float: everything is possible.
    fn default() -> (res: FloatPossibilities)
        ensures
            res == (FloatPossibilities { nan: true, zero: true, infinite: true, range: Range::Full }),
    {
        FloatPossibilities { nan: true, zero: true, infinite: true, range: Range::Full }
    }
}

/// The two float widths. The width is carried along with a description and
/// never changes what an operation does to it.
#[derive(Debug, Clone, Copy, PartialEq, Eq, Structural)]
pub enum Width {
    /// 32-bit floats.
    F32,
    /// 64-bit floats.
    F64,
}

impl Width {
    /// The name of the primitive float type of this width.
    pub open spec fn spec_float_type(&self) -> &'static str {
        match *self {
            Width::F32 => "f32",
            Width::F64 => "f64",
        }
    }

    #[verifier::when_used_as_spec(spec_float_type)]
    pub fn float_type(&self) -> (res: &'static str)
        ensures
            res == self.spec_float_type(),
    {
        match self {
            Width::F32 => "f32",
            Width::F64 => "f64",
        }
    }
}

/// The operand or the result of an operation: a description tagged with the
/// width of the float it describes.
#[derive(Debug, Clone, Copy, PartialEq, Eq, Structural)]
pub enum FnArg {
    /// A 32-bit float.
    F32(FloatPossibilities),
    /// A 64-bit float.
    F64(FloatPossibilities),
}

impl FnArg {
    pub open spec fn spec_possibilities(&self) -> FloatPossibilities {
        match *self {
            FnArg::F32(p) => p,
            FnArg::F64(p) => p,
        }
    }

    pub open spec fn spec_width(&self) -> Width {
        match *self {
            FnArg::F32(_) => Width::F32,
            FnArg::F64(_) => Width::F64,
        }
    }

    pub open spec fn spec_new(width: Width, p: FloatPossibilities) -> FnArg {
        match width {
            Width::F32 => FnArg::F32(p),
            Width::F64 => FnArg::F64(p),
        }
    }

    /// The same width around another description.
    pub open spec fn spec_with(&self, p: FloatPossibilities) -> FnArg {
        FnArg::spec_new(self.spec_width(), p)
    }

    /// The description inside.
    #[verifier::when_used_as_spec(spec_possibilities)]
    pub fn possibilities(&self) -> (res: FloatPossibilities)
        ensures
            res == self.spec_possibilities(),
    {
        match self {
            FnArg::F32(p) => *p,
            FnArg::F64(p) => *p,
        }
    }

    /// The width it is tagged with.
    #[verifier::when_used_as_spec(spec_width)]
    pub fn width(&self) -> (res: Width)
        ensures
            res == self.spec_width(),
    {
        match self {
            FnArg::F32(_) => Width::F32,
            FnArg::F64(_) => Width::F64,
        }
    }

    /// Tags a description with a width.
    #[verifier::when_used_as_spec(spec_new)]
    pub fn new(width: Width, p: FloatPossibilities) -> (res: FnArg)
        ensures
            res == FnArg::spec_new(width, p),
            res.possibilities() == p,
            res.width() == width,
    {
        match width {
            Width::F32 => FnArg::F32(p),
            Width::F64 => FnArg::F64(p),
        }
    }

    /// Keeps the width and replaces the description.
    #[verifier::when_used_as_spec(spec_with)]
    pub fn with(&self, p: FloatPossibilities) -> (res: FnArg)
        ensures
            res == self.spec_with(p),
            res.possibilities() == p,
            res.width() == self.width(),
    {
        match self {
            FnArg::F32(_) => FnArg::F32(p),
            FnArg::F64(_) => FnArg::F64(p),
        }
    }
}

} // verus!
