//! What holds of every transfer rule.
use vstd::prelude::*;
use crate::catalog::{entry_ok, lemma_first_covering, narrowest, well_formed};
use crate::category::FloatDefinition;
use crate::matrix::{binary_cell, published_specifications, unary_cell};
use crate::possibilities::FloatPossibilities;
use crate::rules::{BinaryOp, UnaryOp};

verus! {

/// The rules of the unary operations are monotone: an operand that allows
/// less gives a result that allows less. No flag of the result goes from
/// possible to impossible as the operand widens.
pub proof fn lemma_unary_monotone(op: UnaryOp, c1: FloatPossibilities, c2: FloatPossibilities)
    requires
        c1.within(c2),
    ensures
        op.rule(c1).within(op.rule(c2)),
{
}

/// The rules of the binary operations are monotone in both operands.
pub proof fn lemma_binary_monotone(
    op: BinaryOp,
    l1: FloatPossibilities,
    r1: FloatPossibilities,
    l2: FloatPossibilities,
    r2: FloatPossibilities,
)
    requires
        l1.within(l2),
        r1.within(r2),
    ensures
        op.rule(l1, r1).within(op.rule(l2, r2)),
{
}

/// An operand that may be NaN gives a result that may be NaN, under every
/// unary rule but that of `signum`.
pub proof fn lemma_unary_nan_absorbed(op: UnaryOp, c: FloatPossibilities)
    requires
        c.nan,
        op.keeps_nan(),
    ensures
        op.rule(c).nan,
{
}

/// The rule of `signum` never reports NaN, whatever the operand is.
pub proof fn lemma_unary_nan_dropped(op: UnaryOp, c: FloatPossibilities)
    requires
        !op.keeps_nan(),
    ensures
        op == UnaryOp::Signum,
        !op.rule(c).nan,
{
}

/// If either operand may be NaN, the result of a binary operation may be NaN.
pub proof fn lemma_binary_nan_absorbed(op: BinaryOp, l: FloatPossibilities, r: FloatPossibilities)
    requires
        l.nan || r.nan,
    ensures
        op.rule(l, r).nan,
{
}

/// Negating twice changes nothing, so the category found for a description
/// is the category found for its double negation.
pub proof fn lemma_neg_round_trip(entries: Seq<FloatDefinition>, c: FloatPossibilities)
    ensures
        UnaryOp::Neg.rule(UnaryOp::Neg.rule(c)) == c,
        narrowest(entries, UnaryOp::Neg.rule(UnaryOp::Neg.rule(c))) == narrowest(entries, c),
{
}

/// Subtracting is adding the negation.
pub proof fn lemma_sub_is_add_of_neg(l: FloatPossibilities, r: FloatPossibilities)
    ensures
        BinaryOp::Sub.rule(l, r) == BinaryOp::Add.rule(l, UnaryOp::Neg.rule(r)),
{
}

/// The table of a unary operation is sound: whatever the operand of a
/// category is, the result is covered by what the table publishes for that
/// category. The operand is described by `c`, which the category at `lhs`
/// covers.
pub proof fn lemma_unary_cell_is_sound(
    entries: Seq<FloatDefinition>,
    op: UnaryOp,
    lhs: int,
    c: FloatPossibilities,
)
    requires
        well_formed(entries),
        0 <= lhs < entries.len(),
        entries[lhs].s.covers(c),
    ensures
        published_specifications(entries, unary_cell(entries, op, lhs)).covers(op.rule(c)),
{
    let worst = entries[lhs].s.worst_case();
    assert(entry_ok(entries[lhs]));
    entries[lhs].s.lemma_worst_case_is_widest(c);
    lemma_unary_monotone(op, c, worst);
    lemma_first_covering(entries, op.rule(worst), 0);
}

/// The table of a binary operation is sound: whatever the operands of two
/// categories are, the result is covered by what the table publishes for
/// those categories.
pub proof fn lemma_binary_cell_is_sound(
    entries: Seq<FloatDefinition>,
    op: BinaryOp,
    lhs: int,
    rhs: int,
    l: FloatPossibilities,
    r: FloatPossibilities,
)
    requires
        well_formed(entries),
        0 <= lhs < entries.len(),
        0 <= rhs < entries.len(),
        entries[lhs].s.covers(l),
        entries[rhs].s.covers(r),
    ensures
        published_specifications(entries, binary_cell(entries, op, lhs, rhs)).covers(
            op.rule(l, r),
        ),
{
    let worst_l = entries[lhs].s.worst_case();
    let worst_r = entries[rhs].s.worst_case();
    assert(entry_ok(entries[lhs]));
    assert(entry_ok(entries[rhs]));
    entries[lhs].s.lemma_worst_case_is_widest(l);
    entries[rhs].s.lemma_worst_case_is_widest(r);
    lemma_binary_monotone(op, l, r, worst_l, worst_r);
    lemma_first_covering(entries, op.rule(worst_l, worst_r), 0);
}

} // verus!
