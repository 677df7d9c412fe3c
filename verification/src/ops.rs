//! The transfer functions, one for each operation.
//!
//! Each takes the description of its operands and returns the description of
//! its result, tagged with the width of the (left) operand.
use vstd::prelude::*;
use crate::possibilities::{FloatPossibilities, FnArg};
use crate::range::Range;
use crate::rules::{BinaryOp, Operation, UnaryOp};

verus! {

/// Negation: the sign flips, everything else stays.
pub fn neg(lhs: &FnArg) -> (res: FnArg)
    ensures
        res == lhs.with(UnaryOp::Neg.rule(lhs.possibilities())),
{
    let p = lhs.possibilities();
    lhs.with(FloatPossibilities { range: p.range.opposite(), ..p })
}

/// Absolute value: the result is never negative.
pub fn abs(lhs: &FnArg) -> (res: FnArg)
    ensures
        res == lhs.with(UnaryOp::Abs.rule(lhs.possibilities())),
{
    let p = lhs.possibilities();
    lhs.with(FloatPossibilities { range: Range::Positive, ..p })
}

/// Rounding up: a negative fraction becomes zero.
pub fn ceil(lhs: &FnArg) -> (res: FnArg)
    ensures
        res == lhs.with(UnaryOp::Ceil.rule(lhs.possibilities())),
{
    let p = lhs.possibilities();
    lhs.with(FloatPossibilities { zero: p.zero || p.range.can_be_negative(), ..p })
}

/// Rounding down: a positive fraction becomes zero.
pub fn floor(lhs: &FnArg) -> (res: FnArg)
    ensures
        res == lhs.with(UnaryOp::Floor.rule(lhs.possibilities())),
{
    let p = lhs.possibilities();
    lhs.with(FloatPossibilities { zero: p.zero || p.range.can_be_positive(), ..p })
}

/// Rounding to the nearest integer: zero is always possible.
pub fn round(lhs: &FnArg) -> (res: FnArg)
    ensures
        res == lhs.with(UnaryOp::Round.rule(lhs.possibilities())),
{
    let p = lhs.possibilities();
    lhs.with(FloatPossibilities { zero: true, ..p })
}

/// Dropping the fraction: zero is always possible.
pub fn trunc(lhs: &FnArg) -> (res: FnArg)
    ensures
        res == lhs.with(UnaryOp::Trunc.rule(lhs.possibilities())),
{
    let p = lhs.possibilities();
    lhs.with(FloatPossibilities { zero: true, ..p })
}

/// The fractional part: zero is always possible, an infinity gives NaN, and an
/// operand that is never negative gives a result that is never negative.
pub fn fract(lhs: &FnArg) -> (res: FnArg)
    ensures
        res == lhs.with(UnaryOp::Fract.rule(lhs.possibilities())),
{
    let p = lhs.possibilities();
    lhs.with(FloatPossibilities {
        nan: p.nan || p.infinite,
        zero: true,
        infinite: p.infinite,
        range: if p.range.can_be_negative() {
            Range::Full
        } else {
            Range::Positive
        },
    })
}

/// The sign as a unit: never zero, infinite or NaN.
pub fn signum(lhs: &FnArg) -> (res: FnArg)
    ensures
        res == lhs.with(UnaryOp::Signum.rule(lhs.possibilities())),
{
    let p = lhs.possibilities();
    lhs.with(FloatPossibilities { nan: false, zero: false, infinite: false, range: p.range })
}

/// Square root: NaN when the operand can be NaN or negative.
pub fn sqrt(lhs: &FnArg) -> (res: FnArg)
    ensures
        res == lhs.with(UnaryOp::Sqrt.rule(lhs.possibilities())),
{
    let p = lhs.possibilities();
    lhs.with(FloatPossibilities { nan: p.nan || p.range.can_be_negative(), ..p })
}

/// Exponential: always positive, zero by underflow, infinite by overflow.
pub fn exp(lhs: &FnArg) -> (res: FnArg)
    ensures
        res == lhs.with(UnaryOp::Exp.rule(lhs.possibilities())),
{
    let p = lhs.possibilities();
    lhs.with(FloatPossibilities {
        nan: p.nan,
        zero: p.range.can_be_negative(),
        infinite: p.range.can_be_positive(),
        range: Range::Positive,
    })
}

/// Power of two: the rule of [`exp`].
pub fn exp2(lhs: &FnArg) -> (res: FnArg)
    ensures
        res == lhs.with(UnaryOp::Exp2.rule(lhs.possibilities())),
{
    exp(lhs)
}

/// Natural logarithm: any sign, zero at one, infinite at zero or infinity, NaN
/// when the operand can be NaN or negative.
pub fn ln(lhs: &FnArg) -> (res: FnArg)
    ensures
        res == lhs.with(UnaryOp::Ln.rule(lhs.possibilities())),
{
    let p = lhs.possibilities();
    lhs.with(FloatPossibilities {
        nan: p.nan || p.range.can_be_negative(),
        zero: p.range.can_be_positive(),
        infinite: p.infinite || p.zero,
        range: Range::Full,
    })
}

/// Base 2 logarithm: the rule of [`ln`].
pub fn log2(lhs: &FnArg) -> (res: FnArg)
    ensures
        res == lhs.with(UnaryOp::Log2.rule(lhs.possibilities())),
{
    ln(lhs)
}

/// Base 10 logarithm: the rule of [`ln`].
pub fn log10(lhs: &FnArg) -> (res: FnArg)
    ensures
        res == lhs.with(UnaryOp::Log10.rule(lhs.possibilities())),
{
    ln(lhs)
}

/// Radians to degrees: large values overflow to an infinity.
pub fn to_degrees(lhs: &FnArg) -> (res: FnArg)
    ensures
        res == lhs.with(UnaryOp::ToDegrees.rule(lhs.possibilities())),
{
    let p = lhs.possibilities();
    lhs.with(FloatPossibilities { infinite: true, ..p })
}

/// Degrees to radians: nothing changes.
pub fn to_radians(lhs: &FnArg) -> (res: FnArg)
    ensures
        res == lhs.with(UnaryOp::ToRadians.rule(lhs.possibilities())),
{
    *lhs
}

/// Cube root: nothing changes.
pub fn cbrt(lhs: &FnArg) -> (res: FnArg)
    ensures
        res == lhs.with(UnaryOp::Cbrt.rule(lhs.possibilities())),
{
    *lhs
}

/// Sine: any sign, zero possible, never infinite, NaN at an infinity.
pub fn sin(lhs: &FnArg) -> (res: FnArg)
    ensures
        res == lhs.with(UnaryOp::Sin.rule(lhs.possibilities())),
{
    let p = lhs.possibilities();
    lhs.with(FloatPossibilities { nan: p.nan || p.infinite, zero: true, infinite: false, range: Range::Full })
}

/// Cosine: the rule of [`sin`].
pub fn cos(lhs: &FnArg) -> (res: FnArg)
    ensures
        res == lhs.with(UnaryOp::Cos.rule(lhs.possibilities())),
{
    sin(lhs)
}

/// Tangent: as [`sin`], but an infinity is possible.
pub fn tan(lhs: &FnArg) -> (res: FnArg)
    ensures
        res == lhs.with(UnaryOp::Tan.rule(lhs.possibilities())),
{
    let p = lhs.possibilities();
    lhs.with(FloatPossibilities { nan: p.nan || p.infinite, zero: true, infinite: true, range: Range::Full })
}

/// Arc sine: sign and zero stay, never infinite, NaN always possible.
pub fn asin(lhs: &FnArg) -> (res: FnArg)
    ensures
        res == lhs.with(UnaryOp::Asin.rule(lhs.possibilities())),
{
    let p = lhs.possibilities();
    lhs.with(FloatPossibilities { nan: true, zero: p.zero, infinite: false, range: p.range })
}

/// Arc cosine: positive or zero, finite, NaN always possible, whatever the
/// operand.
pub fn acos(lhs: &FnArg) -> (res: FnArg)
    ensures
        res == lhs.with(UnaryOp::Acos.rule(lhs.possibilities())),
{
    let p = lhs.possibilities();
    lhs.with(FloatPossibilities { nan: true, zero: true, infinite: false, range: Range::Positive })
}

/// Arc tangent: never infinite.
pub fn atan(lhs: &FnArg) -> (res: FnArg)
    ensures
        res == lhs.with(UnaryOp::Atan.rule(lhs.possibilities())),
{
    let p = lhs.possibilities();
    lhs.with(FloatPossibilities { infinite: false, ..p })
}

/// Exponential minus one: infinite exactly when the operand can be positive.
pub fn exp_m1(lhs: &FnArg) -> (res: FnArg)
    ensures
        res == lhs.with(UnaryOp::ExpM1.rule(lhs.possibilities())),
{
    let p = lhs.possibilities();
    lhs.with(FloatPossibilities { infinite: p.range.can_be_positive(), ..p })
}

/// Logarithm of one plus the operand: positive range, NaN when the operand can
/// be negative.
pub fn ln_1p(lhs: &FnArg) -> (res: FnArg)
    ensures
        res == lhs.with(UnaryOp::Ln1p.rule(lhs.possibilities())),
{
    let p = lhs.possibilities();
    lhs.with(FloatPossibilities { nan: p.nan || p.range.can_be_negative(), range: Range::Positive, ..p })
}

/// Hyperbolic sine: an infinity is possible.
pub fn sinh(lhs: &FnArg) -> (res: FnArg)
    ensures
        res == lhs.with(UnaryOp::Sinh.rule(lhs.possibilities())),
{
    let p = lhs.possibilities();
    lhs.with(FloatPossibilities { infinite: true, ..p })
}

/// Hyperbolic cosine: positive, never zero, an infinity is possible.
pub fn cosh(lhs: &FnArg) -> (res: FnArg)
    ensures
        res == lhs.with(UnaryOp::Cosh.rule(lhs.possibilities())),
{
    let p = lhs.possibilities();
    lhs.with(FloatPossibilities { nan: p.nan, zero: false, infinite: true, range: Range::Positive })
}

/// Hyperbolic tangent: never infinite.
pub fn tanh(lhs: &FnArg) -> (res: FnArg)
    ensures
        res == lhs.with(UnaryOp::Tanh.rule(lhs.possibilities())),
{
    let p = lhs.possibilities();
    lhs.with(FloatPossibilities { infinite: false, ..p })
}

/// Inverse hyperbolic sine: an infinity is possible.
pub fn asinh(lhs: &FnArg) -> (res: FnArg)
    ensures
        res == lhs.with(UnaryOp::Asinh.rule(lhs.possibilities())),
{
    let p = lhs.possibilities();
    lhs.with(FloatPossibilities { infinite: true, ..p })
}

/// Inverse hyperbolic cosine: positive or zero, possibly infinite or NaN,
/// whatever the operand.
pub fn acosh(lhs: &FnArg) -> (res: FnArg)
    ensures
        res == lhs.with(UnaryOp::Acosh.rule(lhs.possibilities())),
{
    let p = lhs.possibilities();
    lhs.with(FloatPossibilities { nan: true, zero: true, infinite: true, range: Range::Positive })
}

/// Inverse hyperbolic tangent: sign and zero stay, an infinity and NaN are
/// possible.
pub fn atanh(lhs: &FnArg) -> (res: FnArg)
    ensures
        res == lhs.with(UnaryOp::Atanh.rule(lhs.possibilities())),
{
    let p = lhs.possibilities();
    lhs.with(FloatPossibilities { nan: true, zero: p.zero, infinite: true, range: p.range })
}

/// Reciprocal: zero and infinity trade places.
pub fn recip(lhs: &FnArg) -> (res: FnArg)
    ensures
        res == lhs.with(UnaryOp::Recip.rule(lhs.possibilities())),
{
    let p = lhs.possibilities();
    lhs.with(FloatPossibilities { nan: p.nan, zero: p.infinite, infinite: p.zero, range: p.range })
}

/// Integer power, for an unknown exponent: zero and an infinity are possible,
/// and the result can be negative only if the operand can.
pub fn powi(lhs: &FnArg) -> (res: FnArg)
    ensures
        res == lhs.with(UnaryOp::Powi.rule(lhs.possibilities())),
{
    let p = lhs.possibilities();
    lhs.with(FloatPossibilities {
        nan: p.nan,
        zero: true,
        infinite: true,
        range: if p.range.can_be_negative() {
            Range::Full
        } else {
            Range::Positive
        },
    })
}

/// Addition. Operands of opposite signs can cancel to zero, and to NaN if both
/// can be infinite; operands of the same sign can overflow. The sign is known
/// only where both operands have the same one.
pub fn add(lhs: &FnArg, rhs: &FnArg) -> (res: FnArg)
    ensures
        res == lhs.with(BinaryOp::Add.rule(lhs.possibilities(), rhs.possibilities())),
{
    let l = lhs.possibilities();
    let r = rhs.possibilities();
    let oppose = l.range.can_oppose(r.range);
    lhs.with(
        FloatPossibilities {
            nan: l.nan || r.nan || (l.infinite && r.infinite && oppose),
            zero: l.zero || r.zero || oppose,
            infinite: l.infinite || r.infinite || l.range.can_agree(r.range),
            range: l.range.join(r.range),
        },
    )
}

/// Subtraction: the sum of the left operand and the negated right operand.
pub fn sub(lhs: &FnArg, rhs: &FnArg) -> (res: FnArg)
    ensures
        res == lhs.with(BinaryOp::Sub.rule(lhs.possibilities(), rhs.possibilities())),
        res == lhs.with(
            BinaryOp::Add.rule(lhs.possibilities(), UnaryOp::Neg.rule(rhs.possibilities())),
        ),
{
    let negated = neg(rhs);
    self::add(lhs, &negated)
}

/// Multiplication. The sign is the product of the signs; zero comes from a
/// zero operand, NaN from zero times an infinity, and an infinity is always
/// possible, since the product of two large finite operands overflows.
pub fn mul(lhs: &FnArg, rhs: &FnArg) -> (res: FnArg)
    ensures
        res == lhs.with(BinaryOp::Mul.rule(lhs.possibilities(), rhs.possibilities())),
{
    let l = lhs.possibilities();
    let r = rhs.possibilities();
    lhs.with(
        FloatPossibilities {
            nan: l.nan || r.nan || (l.zero && r.infinite) || (l.infinite && r.zero),
            zero: l.zero || r.zero,
            infinite: true,
            range: l.range.product(r.range),
        },
    )
}

/// Division. The sign is the product of the signs; zero comes from a zero
/// numerator or an infinite denominator, an infinity from a zero denominator
/// or an infinite numerator, NaN from zero over zero and infinity over
/// infinity.
pub fn div(lhs: &FnArg, rhs: &FnArg) -> (res: FnArg)
    ensures
        res == lhs.with(BinaryOp::Div.rule(lhs.possibilities(), rhs.possibilities())),
{
    let l = lhs.possibilities();
    let r = rhs.possibilities();
    lhs.with(
        FloatPossibilities {
            nan: l.nan || r.nan || (l.zero && r.zero) || (l.infinite && r.infinite),
            zero: l.zero || r.infinite,
            infinite: r.zero || l.infinite,
            range: l.range.product(r.range),
        },
    )
}

/// Remainder. The sign is that of the dividend; zero is always possible, an
/// infinity never; NaN comes from an infinite dividend or a zero divisor.
pub fn rem(lhs: &FnArg, rhs: &FnArg) -> (res: FnArg)
    ensures
        res == lhs.with(BinaryOp::Rem.rule(lhs.possibilities(), rhs.possibilities())),
{
    let l = lhs.possibilities();
    let r = rhs.possibilities();
    lhs.with(
        FloatPossibilities {
            nan: l.nan || r.nan || l.infinite || r.zero,
            zero: true,
            infinite: false,
            range: l.range,
        },
    )
}

impl UnaryOp {
    /// Applies the transfer function of this operation.
    pub fn apply(&self, lhs: &FnArg) -> (res: FnArg)
        ensures
            res == lhs.with(self.rule(lhs.possibilities())),
    {
        match self {
            UnaryOp::Neg => neg(lhs),
            UnaryOp::Abs => abs(lhs),
            UnaryOp::Ceil => ceil(lhs),
            UnaryOp::Floor => floor(lhs),
            UnaryOp::Round => round(lhs),
            UnaryOp::Trunc => trunc(lhs),
            UnaryOp::Fract => fract(lhs),
            UnaryOp::Signum => signum(lhs),
            UnaryOp::Sqrt => sqrt(lhs),
            UnaryOp::Exp => exp(lhs),
            UnaryOp::Exp2 => exp2(lhs),
            UnaryOp::Ln => ln(lhs),
            UnaryOp::Log2 => log2(lhs),
            UnaryOp::Log10 => log10(lhs),
            UnaryOp::ToDegrees => to_degrees(lhs),
            UnaryOp::ToRadians => to_radians(lhs),
            UnaryOp::Cbrt => cbrt(lhs),
            UnaryOp::Sin => sin(lhs),
            UnaryOp::Cos => cos(lhs),
            UnaryOp::Tan => tan(lhs),
            UnaryOp::Asin => asin(lhs),
            UnaryOp::Acos => acos(lhs),
            UnaryOp::Atan => atan(lhs),
            UnaryOp::ExpM1 => exp_m1(lhs),
            UnaryOp::Ln1p => ln_1p(lhs),
            UnaryOp::Sinh => sinh(lhs),
            UnaryOp::Cosh => cosh(lhs),
            UnaryOp::Tanh => tanh(lhs),
            UnaryOp::Asinh => asinh(lhs),
            UnaryOp::Acosh => acosh(lhs),
            UnaryOp::Atanh => atanh(lhs),
            UnaryOp::Recip => recip(lhs),
            UnaryOp::Powi => powi(lhs),
        }
    }
}

impl BinaryOp {
    /// Applies the transfer function of this operation. The result has the
    /// width of the left operand.
    pub fn apply(&self, lhs: &FnArg, rhs: &FnArg) -> (res: FnArg)
        ensures
            res == lhs.with(self.rule(lhs.possibilities(), rhs.possibilities())),
    {
        match self {
            BinaryOp::Add => self::add(lhs, rhs),
            BinaryOp::Sub => self::sub(lhs, rhs),
            BinaryOp::Mul => self::mul(lhs, rhs),
            BinaryOp::Div => div(lhs, rhs),
            BinaryOp::Rem => rem(lhs, rhs),
        }
    }
}

/// The descriptions inside the operands.
pub open spec fn descriptions(operands: Seq<FnArg>) -> Seq<FloatPossibilities> {
    operands.map_values(|a: FnArg| a.possibilities())
}

impl Operation {
    /// Applies the transfer function of this operation to its operands, the
    /// left one first. The result has the width of the first operand. `None`
    /// exactly where the number of operands is not the arity of the operation.
    pub fn apply(&self, operands: &Vec<FnArg>) -> (res: Option<FnArg>)
        ensures
            res is Some <==> operands@.len() == self.arity(),
            res matches Some(r) ==> self.rule(descriptions(operands@)) == Some(r.possibilities())
                && r.width() == operands@[0].width(),
    {
        match self {
            Operation::Unary(op) => {
                if operands.len() == 1 {
                    Some(op.apply(&operands[0]))
                } else {
                    None
                }
            },
            Operation::Binary(op) => {
                if operands.len() == 2 {
                    Some(op.apply(&operands[0], &operands[1]))
                } else {
                    None
                }
            },
        }
    }
}

} // verus!
