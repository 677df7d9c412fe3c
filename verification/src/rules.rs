//! The operations and their transfer rules.
//!
//! A transfer rule says, for the description of the operands, which values the
//! result of the operation may take. The rules follow IEEE-754: signed zeros
//! and infinities, NaN from invalid operations, overflow to infinity.
use vstd::prelude::*;
use crate::possibilities::FloatPossibilities;
use crate::range::Range;

verus! {

/// The operations of one operand.
#[derive(Debug, Clone, Copy, PartialEq, Eq, Structural)]
pub enum UnaryOp {
    Neg,
    Abs,
    Ceil,
    Floor,
    Round,
    Trunc,
    Fract,
    Signum,
    Sqrt,
    Exp,
    Exp2,
    Ln,
    Log2,
    Log10,
    ToDegrees,
    ToRadians,
    Cbrt,
    Sin,
    Cos,
    Tan,
    Asin,
    Acos,
    Atan,
    ExpM1,
    Ln1p,
    Sinh,
    Cosh,
    Tanh,
    Asinh,
    Acosh,
    Atanh,
    Recip,
    Powi,
}

/// The operations of two operands.
#[derive(Debug, Clone, Copy, PartialEq, Eq, Structural)]
pub enum BinaryOp {
    Add,
    Sub,
    Mul,
    Div,
    Rem,
}

/// An operation, of either arity.
#[derive(Debug, Clone, Copy, PartialEq, Eq, Structural)]
pub enum Operation {
    Unary(UnaryOp),
    Binary(BinaryOp),
}

impl Operation {
    /// The number of operands.
    pub open spec fn spec_arity(&self) -> usize {
        match *self {
            Operation::Unary(_) => 1,
            Operation::Binary(_) => 2,
        }
    }

    /// What the operation may return on the given operands; `None` where
    /// their number is not the arity of the operation.
    pub open spec fn rule(self, operands: Seq<FloatPossibilities>) -> Option<FloatPossibilities> {
        match self {
            Operation::Unary(op) => if operands.len() == 1 {
                Some(op.rule(operands[0]))
            } else {
                None
            },
            Operation::Binary(op) => if operands.len() == 2 {
                Some(op.rule(operands[0], operands[1]))
            } else {
                None
            },
        }
    }

    /// The number of operands.
    #[verifier::when_used_as_spec(spec_arity)]
    pub fn arity(&self) -> (res: usize)
        ensures
            res == self.spec_arity(),
    {
        match self {
            Operation::Unary(_) => 1,
            Operation::Binary(_) => 2,
        }
    }
}

impl FloatPossibilities {
    /// Finite members other than zero are possible. A range always allows a
    /// sign, so this holds of every description.
    pub open spec fn spec_can_be_finite_nonzero(&self) -> bool {
        self.range.can_be_positive() || self.range.can_be_negative()
    }

    #[verifier::when_used_as_spec(spec_can_be_finite_nonzero)]
    pub fn can_be_finite_nonzero(&self) -> (res: bool)
        ensures
            res == self.spec_can_be_finite_nonzero(),
            res,
    {
        self.range.can_be_positive() || self.range.can_be_negative()
    }
}

impl UnaryOp {
    /// The name of the operation.
    pub open spec fn spec_name(&self) -> &'static str {
        match *self {
            UnaryOp::Neg => "neg",
            UnaryOp::Abs => "abs",
            UnaryOp::Ceil => "ceil",
            UnaryOp::Floor => "floor",
            UnaryOp::Round => "round",
            UnaryOp::Trunc => "trunc",
            UnaryOp::Fract => "fract",
            UnaryOp::Signum => "signum",
            UnaryOp::Sqrt => "sqrt",
            UnaryOp::Exp => "exp",
            UnaryOp::Exp2 => "exp2",
            UnaryOp::Ln => "ln",
            UnaryOp::Log2 => "log2",
            UnaryOp::Log10 => "log10",
            UnaryOp::ToDegrees => "to_degrees",
            UnaryOp::ToRadians => "to_radians",
            UnaryOp::Cbrt => "cbrt",
            UnaryOp::Sin => "sin",
            UnaryOp::Cos => "cos",
            UnaryOp::Tan => "tan",
            UnaryOp::Asin => "asin",
            UnaryOp::Acos => "acos",
            UnaryOp::Atan => "atan",
            UnaryOp::ExpM1 => "exp_m1",
            UnaryOp::Ln1p => "ln_1p",
            UnaryOp::Sinh => "sinh",
            UnaryOp::Cosh => "cosh",
            UnaryOp::Tanh => "tanh",
            UnaryOp::Asinh => "asinh",
            UnaryOp::Acosh => "acosh",
            UnaryOp::Atanh => "atanh",
            UnaryOp::Recip => "recip",
            UnaryOp::Powi => "powi",
        }
    }

    /// The name of the operation.
    #[verifier::when_used_as_spec(spec_name)]
    pub fn name(&self) -> (res: &'static str)
        ensures
            res == self.spec_name(),
    {
        match self {
            UnaryOp::Neg => "neg",
            UnaryOp::Abs => "abs",
            UnaryOp::Ceil => "ceil",
            UnaryOp::Floor => "floor",
            UnaryOp::Round => "round",
            UnaryOp::Trunc => "trunc",
            UnaryOp::Fract => "fract",
            UnaryOp::Signum => "signum",
            UnaryOp::Sqrt => "sqrt",
            UnaryOp::Exp => "exp",
            UnaryOp::Exp2 => "exp2",
            UnaryOp::Ln => "ln",
            UnaryOp::Log2 => "log2",
            UnaryOp::Log10 => "log10",
            UnaryOp::ToDegrees => "to_degrees",
            UnaryOp::ToRadians => "to_radians",
            UnaryOp::Cbrt => "cbrt",
            UnaryOp::Sin => "sin",
            UnaryOp::Cos => "cos",
            UnaryOp::Tan => "tan",
            UnaryOp::Asin => "asin",
            UnaryOp::Acos => "acos",
            UnaryOp::Atan => "atan",
            UnaryOp::ExpM1 => "exp_m1",
            UnaryOp::Ln1p => "ln_1p",
            UnaryOp::Sinh => "sinh",
            UnaryOp::Cosh => "cosh",
            UnaryOp::Tanh => "tanh",
            UnaryOp::Asinh => "asinh",
            UnaryOp::Acosh => "acosh",
            UnaryOp::Atanh => "atanh",
            UnaryOp::Recip => "recip",
            UnaryOp::Powi => "powi",
        }
    }

    /// What the operation may return on an operand described by `p`.
    pub open spec fn rule(self, p: FloatPossibilities) -> FloatPossibilities {
        match self {
            // The sign flips; magnitudes stay.
            UnaryOp::Neg => FloatPossibilities { range: p.range.opposite(), ..p },
            UnaryOp::Abs => FloatPossibilities { range: Range::Positive, ..p },
            // A negative fraction rounds up to zero.
            UnaryOp::Ceil => FloatPossibilities {
                zero: p.zero || p.range.can_be_negative(),
                ..p
            },
            // A positive fraction rounds down to zero.
            UnaryOp::Floor => FloatPossibilities {
                zero: p.zero || p.range.can_be_positive(),
                ..p
            },
            // Any magnitude under one goes to zero.
            UnaryOp::Round | UnaryOp::Trunc => FloatPossibilities { zero: true, ..p },
            // An infinity has no fractional part; a zero fractional part is +0.
            UnaryOp::Fract => FloatPossibilities {
                nan: p.nan || p.infinite,
                zero: true,
                infinite: p.infinite,
                range: if p.range.can_be_negative() {
                    Range::Full
                } else {
                    Range::Positive
                },
            },
            // Only the sign survives.
            UnaryOp::Signum => FloatPossibilities {
                nan: false,
                zero: false,
                infinite: false,
                range: p.range,
            },
            // NaN comes from a negative operand, or from a NaN operand.
            UnaryOp::Sqrt => FloatPossibilities {
                nan: p.nan || p.range.can_be_negative(),
                ..p
            },
            // Always positive; underflows to zero, overflows to infinity.
            UnaryOp::Exp | UnaryOp::Exp2 => FloatPossibilities {
                nan: p.nan,
                zero: p.range.can_be_negative(),
                infinite: p.range.can_be_positive(),
                range: Range::Positive,
            },
            // Zero at one, an infinity at zero, NaN below zero or from NaN.
            UnaryOp::Ln | UnaryOp::Log2 | UnaryOp::Log10 => FloatPossibilities {
                nan: p.nan || p.range.can_be_negative(),
                zero: p.range.can_be_positive(),
                infinite: p.infinite || p.zero,
                range: Range::Full,
            },
            // Large values overflow.
            UnaryOp::ToDegrees => FloatPossibilities { infinite: true, ..p },
            UnaryOp::ToRadians | UnaryOp::Cbrt => p,
            // Undefined at the infinities.
            UnaryOp::Sin | UnaryOp::Cos => FloatPossibilities {
                nan: p.nan || p.infinite,
                zero: true,
                infinite: false,
                range: Range::Full,
            },
            UnaryOp::Tan => FloatPossibilities {
                nan: p.nan || p.infinite,
                zero: true,
                infinite: true,
                range: Range::Full,
            },
            UnaryOp::Asin => FloatPossibilities {
                nan: true,
                zero: p.zero,
                infinite: false,
                range: p.range,
            },
            UnaryOp::Acos => FloatPossibilities {
                nan: true,
                zero: true,
                infinite: false,
                range: Range::Positive,
            },
            UnaryOp::Atan | UnaryOp::Tanh => FloatPossibilities { infinite: false, ..p },
            UnaryOp::ExpM1 => FloatPossibilities { infinite: p.range.can_be_positive(), ..p },
            UnaryOp::Ln1p => FloatPossibilities {
                nan: p.nan || p.range.can_be_negative(),
                range: Range::Positive,
                ..p
            },
            UnaryOp::Sinh | UnaryOp::Asinh => FloatPossibilities { infinite: true, ..p },
            UnaryOp::Cosh => FloatPossibilities {
                nan: p.nan,
                zero: false,
                infinite: true,
                range: Range::Positive,
            },
            UnaryOp::Acosh => FloatPossibilities {
                nan: true,
                zero: true,
                infinite: true,
                range: Range::Positive,
            },
            UnaryOp::Atanh => FloatPossibilities {
                nan: true,
                zero: p.zero,
                infinite: true,
                range: p.range,
            },
            // One over zero is an infinity, one over an infinity is zero.
            UnaryOp::Recip => FloatPossibilities {
                nan: p.nan,
                zero: p.infinite,
                infinite: p.zero,
                range: p.range,
            },
            // Whatever the exponent is.
            UnaryOp::Powi => FloatPossibilities {
                nan: p.nan,
                zero: true,
                infinite: true,
                range: if p.range.can_be_negative() {
                    Range::Full
                } else {
                    Range::Positive
                },
            },
        }
    }

    /// Whether the operation takes an argument besides its operand. Only the
    /// integer power does: its exponent, which the rule does not read.
    pub fn takes_exponent(&self) -> (res: bool)
        ensures
            res == (*self == UnaryOp::Powi),
    {
        match self {
            UnaryOp::Powi => true,
            _ => false,
        }
    }

    /// Whether the rule hands on a NaN of the operand. Every rule does but
    /// that of `signum`, which never reports NaN.
    pub open spec fn keeps_nan(self) -> bool {
        self != UnaryOp::Signum
    }
}

/// What a sum may be: the rule of addition, which subtraction shares.
pub open spec fn sum_rule(l: FloatPossibilities, r: FloatPossibilities) -> FloatPossibilities {
    FloatPossibilities {
        // Infinities of opposite signs cancel to NaN.
        nan: l.nan || r.nan || (l.infinite && r.infinite && l.range.can_oppose(r.range)),
        // Operands of opposite signs cancel to zero.
        zero: l.zero || r.zero || l.range.can_oppose(r.range),
        // Operands of the same sign overflow.
        infinite: l.infinite || r.infinite || l.range.can_agree(r.range),
        range: l.range.join(r.range),
    }
}

impl BinaryOp {
    /// The operator sign of the operation.
    pub open spec fn spec_symbol(&self) -> &'static str {
        match *self {
            BinaryOp::Add => "+",
            BinaryOp::Sub => "-",
            BinaryOp::Mul => "*",
            BinaryOp::Div => "/",
            BinaryOp::Rem => "%",
        }
    }

    /// The operator sign of the operation.
    #[verifier::when_used_as_spec(spec_symbol)]
    pub fn symbol(&self) -> (res: &'static str)
        ensures
            res == self.spec_symbol(),
    {
        match self {
            BinaryOp::Add => "+",
            BinaryOp::Sub => "-",
            BinaryOp::Mul => "*",
            BinaryOp::Div => "/",
            BinaryOp::Rem => "%",
        }
    }

    /// What the operation may return on operands described by `l` and `r`.
    pub open spec fn rule(self, l: FloatPossibilities, r: FloatPossibilities) -> FloatPossibilities {
        match self {
            BinaryOp::Add => sum_rule(l, r),
            // A difference is the sum with the negated right operand.
            BinaryOp::Sub => sum_rule(l, UnaryOp::Neg.rule(r)),
            BinaryOp::Mul => FloatPossibilities {
                // Zero times an infinity.
                nan: l.nan || r.nan || (l.zero && r.infinite) || (l.infinite && r.zero),
                zero: l.zero || r.zero,
                // Every description allows finite operands of any size, and
                // the product of two large ones overflows.
                infinite: true,
                range: l.range.product(r.range),
            },
            BinaryOp::Div => FloatPossibilities {
                // Zero over zero, an infinity over an infinity.
                nan: l.nan || r.nan || (l.zero && r.zero) || (l.infinite && r.infinite),
                zero: l.zero || r.infinite,
                infinite: r.zero || l.infinite,
                range: l.range.product(r.range),
            },
            BinaryOp::Rem => FloatPossibilities {
                // An infinite dividend, a zero divisor.
                nan: l.nan || r.nan || l.infinite || r.zero,
                zero: true,
                infinite: false,
                range: l.range,
            },
        }
    }
}

} // verus!
