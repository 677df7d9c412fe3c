//! Classification of the values that floating-point operations can produce.
//!
//! A [`possibilities::FloatPossibilities`] describes a set of floats by four
//! observable facts: whether it may hold NaN, a zero, an infinity, and which
//! signs its members may have. Every operation has a transfer rule that turns
//! the description of its operands into the description of its result, and a
//! [`catalog::Catalog`] of refined float categories picks the narrowest
//! category that is guaranteed to hold that result.
pub mod range;
pub mod possibilities;
pub mod rules;
pub mod ops;
pub mod registry;
pub mod category;
pub mod catalog;
pub mod standard;
pub mod matrix;
pub mod tables;
pub mod laws;
