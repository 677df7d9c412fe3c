use float_fn_types::catalog::Catalog;
use float_fn_types::possibilities::{FnArg, Width};
use float_fn_types::registry::{binary_ops, unary_ops};
use float_fn_types::rules::{BinaryOp, UnaryOp};
use float_fn_types::standard::category;

fn index_by_name(catalog: &Catalog, name: &str) -> usize {
    (0..catalog.len()).find(|i| catalog.get(*i).name == name).unwrap()
}

fn unary_name(catalog: &Catalog, op: UnaryOp, lhs: &str) -> &'static str {
    let found = catalog.unary_result(op, index_by_name(catalog, lhs));
    catalog.result_name(found)
}

fn binary_name(catalog: &Catalog, op: BinaryOp, lhs: &str, rhs: &str) -> &'static str {
    let found =
        catalog.binary_result(op, index_by_name(catalog, lhs), index_by_name(catalog, rhs));
    catalog.result_name(found)
}

#[test]
fn operand_is_the_worst_case_with_the_width() {
    let catalog = Catalog::standard(Width::F32);
    let i = index_by_name(&catalog, "Negative");
    assert_eq!(catalog.operand(i), FnArg::F32(catalog.get(i).s.worst_case()));
    let wide = Catalog::standard(Width::F64);
    assert_eq!(wide.operand(i), FnArg::F64(wide.get(i).s.worst_case()));
}

#[test]
fn unary_cells_of_the_standard_catalog() {
    let c = Catalog::standard(Width::F64);
    assert_eq!(unary_name(&c, UnaryOp::Neg, "StrictlyPositiveFinite"), "StrictlyNegativeFinite");
    assert_eq!(unary_name(&c, UnaryOp::Neg, "NonNaN"), "NonNaN");
    assert_eq!(unary_name(&c, UnaryOp::Abs, "NegativeFinite"), "PositiveFinite");
    assert_eq!(unary_name(&c, UnaryOp::Abs, "NonZeroNonNaN"), "StrictlyPositive");
    assert_eq!(unary_name(&c, UnaryOp::Ceil, "StrictlyNegativeFinite"), "NegativeFinite");
    assert_eq!(unary_name(&c, UnaryOp::Ceil, "StrictlyPositive"), "StrictlyPositive");
    assert_eq!(unary_name(&c, UnaryOp::Floor, "StrictlyPositive"), "Positive");
    assert_eq!(unary_name(&c, UnaryOp::Round, "NonZeroNonNaNFinite"), "NonNaNFinite");
    assert_eq!(unary_name(&c, UnaryOp::Signum, "Negative"), "StrictlyNegativeFinite");
    assert_eq!(unary_name(&c, UnaryOp::Exp, "NonNaN"), "Positive");
    assert_eq!(unary_name(&c, UnaryOp::Ln, "StrictlyPositiveFinite"), "NonNaNFinite");
    assert_eq!(unary_name(&c, UnaryOp::Recip, "PositiveFinite"), "StrictlyPositive");
}

#[test]
fn unary_cells_that_stay_unrefined() {
    let narrow = Catalog::standard(Width::F32);
    let wide = Catalog::standard(Width::F64);
    assert_eq!(unary_name(&narrow, UnaryOp::Sqrt, "NonNaN"), "f32");
    assert_eq!(unary_name(&wide, UnaryOp::Sqrt, "NonNaN"), "f64");
    assert_eq!(unary_name(&wide, UnaryOp::Sqrt, "Positive"), "Positive");
    assert_eq!(unary_name(&wide, UnaryOp::Acos, "PositiveFinite"), "f64");
    assert_eq!(unary_name(&wide, UnaryOp::Sin, "Positive"), "f64");
    assert_eq!(unary_name(&wide, UnaryOp::Sin, "PositiveFinite"), "NonNaNFinite");
}

#[test]
fn binary_cells_of_the_standard_catalog() {
    let c = Catalog::standard(Width::F64);
    let spf = "StrictlyPositiveFinite";
    let snf = "StrictlyNegativeFinite";
    assert_eq!(binary_name(&c, BinaryOp::Sub, spf, snf), "StrictlyPositive");
    assert_eq!(binary_name(&c, BinaryOp::Add, spf, snf), "NonNaNFinite");
    assert_eq!(binary_name(&c, BinaryOp::Add, spf, spf), "StrictlyPositive");
    assert_eq!(binary_name(&c, BinaryOp::Add, "Positive", "Negative"), "f64");
    assert_eq!(binary_name(&c, BinaryOp::Add, "Positive", "Positive"), "Positive");
    assert_eq!(binary_name(&c, BinaryOp::Mul, spf, snf), "StrictlyNegative");
    assert_eq!(binary_name(&c, BinaryOp::Mul, "PositiveFinite", "Positive"), "f64");
    assert_eq!(binary_name(&c, BinaryOp::Div, spf, snf), "StrictlyNegativeFinite");
    assert_eq!(binary_name(&c, BinaryOp::Div, "PositiveFinite", "PositiveFinite"), "f64");
    assert_eq!(binary_name(&c, BinaryOp::Div, spf, "StrictlyPositive"), "PositiveFinite");
    assert_eq!(binary_name(&c, BinaryOp::Rem, snf, spf), "NegativeFinite");
    assert_eq!(binary_name(&c, BinaryOp::Rem, spf, "PositiveFinite"), "f64");
    assert_eq!(binary_name(&c, BinaryOp::Rem, "StrictlyPositive", spf), "f64");
}

#[test]
fn unary_row_holds_each_cell() {
    let c = Catalog::standard(Width::F64);
    for op in [UnaryOp::Neg, UnaryOp::Abs, UnaryOp::Ceil, UnaryOp::Floor, UnaryOp::Round] {
        let row = c.unary_row(op);
        assert_eq!(row.len(), c.len());
        for lhs in 0..c.len() {
            assert_eq!(row[lhs], c.unary_result(op, lhs));
        }
    }
}

#[test]
fn neg_row_of_the_standard_catalog() {
    let c = Catalog::standard(Width::F64);
    let row = c.unary_row(UnaryOp::Neg);
    assert_eq!(
        row,
        vec![
            Some(1),
            Some(0),
            Some(3),
            Some(2),
            Some(5),
            Some(4),
            Some(6),
            Some(8),
            Some(7),
            Some(9),
            Some(10),
            Some(11)
        ]
    );
}

#[test]
fn binary_table_holds_each_cell() {
    let c = Catalog::standard(Width::F64);
    for op in [BinaryOp::Add, BinaryOp::Sub, BinaryOp::Mul, BinaryOp::Div, BinaryOp::Rem] {
        let table = c.binary_table(op);
        assert_eq!(table.len(), c.len());
        for lhs in 0..c.len() {
            assert_eq!(table[lhs], c.binary_row(op, lhs));
            assert_eq!(table[lhs].len(), c.len());
            for rhs in 0..c.len() {
                assert_eq!(table[lhs][rhs], c.binary_result(op, lhs, rhs));
            }
        }
    }
}

#[test]
fn rem_row_of_strictly_positive_finite() {
    let c = Catalog::standard(Width::F64);
    let row = c.binary_row(BinaryOp::Rem, 0);
    assert_eq!(
        row,
        vec![
            Some(2),
            Some(2),
            None,
            None,
            Some(2),
            Some(2),
            Some(2),
            None,
            None,
            None,
            Some(2),
            None
        ]
    );
}

#[test]
fn tables_of_a_small_catalog() {
    let list = vec![
        category("PositiveFinite", false, true, true, false),
        category("NonNaN", true, true, true, true),
    ];
    let c = Catalog::new(Width::F32, list).unwrap();
    assert_eq!(c.unary_row(UnaryOp::Neg), vec![Some(1), Some(1)]);
    assert_eq!(c.unary_row(UnaryOp::Abs), vec![Some(0), Some(1)]);
    assert_eq!(
        c.binary_table(BinaryOp::Add),
        vec![vec![Some(1), Some(1)], vec![Some(1), None]]
    );
    assert_eq!(c.result_name(Some(0)), "PositiveFinite");
    assert_eq!(c.result_name(None), "f32");
}

#[test]
fn tables_of_the_empty_catalog_are_empty() {
    let c = Catalog::new(Width::F64, Vec::new()).unwrap();
    assert!(c.unary_row(UnaryOp::Neg).is_empty());
    assert!(c.binary_table(BinaryOp::Mul).is_empty());
}

#[test]
fn matrices_hold_the_table_of_each_operation() {
    let c = Catalog::standard(Width::F32);
    let unary = c.unary_matrix();
    let all_unary = unary_ops();
    assert_eq!(unary.len(), all_unary.len());
    for (k, op) in all_unary.iter().enumerate() {
        assert_eq!(unary[k], c.unary_row(*op));
    }
    let binary = c.binary_matrix();
    let all_binary = binary_ops();
    assert_eq!(binary.len(), all_binary.len());
    for (k, op) in all_binary.iter().enumerate() {
        assert_eq!(binary[k], c.binary_table(*op));
    }
}

#[test]
fn every_cell_covers_the_result_on_every_operand() {
    let c = Catalog::standard(Width::F64);
    for lhs in 0..c.len() {
        for op in unary_ops() {
            let cell = c.unary_result(op, lhs);
            let accepted = c.result_specifications(cell);
            let out = op.apply(&c.operand(lhs)).possibilities();
            assert!(accepted.covers(out));
            assert_eq!(cell.is_none(), out.nan);
        }
        for rhs in 0..c.len() {
            for op in binary_ops() {
                let cell = c.binary_result(op, lhs, rhs);
                let accepted = c.result_specifications(cell);
                let out = op.apply(&c.operand(lhs), &c.operand(rhs)).possibilities();
                assert!(accepted.covers(out));
                assert_eq!(cell.is_none(), out.nan);
            }
        }
    }
}

#[test]
fn result_specifications_of_an_unrefined_result_accept_everything() {
    let c = Catalog::standard(Width::F64);
    let any = c.result_specifications(None);
    assert!(any.accept_nan && any.accept_inf && any.accept_zero);
    assert!(any.accept_positive && any.accept_negative);
    assert_eq!(c.result_specifications(Some(2)), c.get(2).s);
}
