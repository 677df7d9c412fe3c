use float_fn_types::catalog::{Catalog, CatalogError};
use float_fn_types::category::{FloatDefinition, FloatSpecifications};
use float_fn_types::ops;
use float_fn_types::possibilities::{FloatPossibilities, FnArg, Width};
use float_fn_types::range::Range;
use float_fn_types::standard::{category, STANDARD_LEN};

fn describe(nan: bool, zero: bool, infinite: bool, range: Range) -> FloatPossibilities {
    FloatPossibilities { nan, zero, infinite, range }
}

fn name_of(catalog: &Catalog, c: &FloatPossibilities) -> Option<&'static str> {
    catalog.get_float(c).map(|d| d.name)
}

fn standard_list() -> Vec<FloatDefinition> {
    let catalog = Catalog::standard(Width::F64);
    (0..catalog.len()).map(|i| catalog.get(i)).collect()
}

#[test]
fn standard_catalog_has_twelve_categories() {
    let catalog = Catalog::standard(Width::F32);
    assert_eq!(catalog.len(), 12);
    assert_eq!(STANDARD_LEN, 12);
    assert_eq!(catalog.width(), Width::F32);
    let names: Vec<&str> = (0..catalog.len()).map(|i| catalog.get(i).name).collect();
    assert_eq!(
        names,
        vec![
            "StrictlyPositiveFinite",
            "StrictlyNegativeFinite",
            "PositiveFinite",
            "NegativeFinite",
            "StrictlyPositive",
            "StrictlyNegative",
            "NonZeroNonNaNFinite",
            "Positive",
            "Negative",
            "NonNaNFinite",
            "NonZeroNonNaN",
            "NonNaN",
        ]
    );
}

#[test]
fn standard_categories_reject_nan_and_accept_a_sign() {
    for d in standard_list() {
        assert!(!d.s.accept_nan);
        assert!(d.s.is_inhabited());
    }
}

#[test]
fn standard_catalog_entries_by_flags() {
    let catalog = Catalog::standard(Width::F64);
    assert_eq!(catalog.get(0), category("StrictlyPositiveFinite", false, false, true, false));
    assert_eq!(catalog.get(3), category("NegativeFinite", false, true, false, true));
    assert_eq!(catalog.get(5), category("StrictlyNegative", true, false, false, true));
    assert_eq!(catalog.get(6), category("NonZeroNonNaNFinite", false, false, true, true));
    assert_eq!(catalog.get(9), category("NonNaNFinite", false, true, true, true));
    assert_eq!(catalog.get(11), category("NonNaN", true, true, true, true));
}

#[test]
fn standard_order_is_a_linear_extension() {
    let list = standard_list();
    for later in 0..list.len() {
        for earlier in 0..later {
            assert!(!list[later].s.strictly_within(list[earlier].s));
        }
    }
    assert!(Catalog::new(Width::F64, list).is_ok());
}

#[test]
fn new_keeps_a_valid_list() {
    let list = vec![
        category("Positive", true, true, true, false),
        category("NonNaN", true, true, true, true),
    ];
    let catalog = Catalog::new(Width::F32, list.clone()).unwrap();
    assert_eq!(catalog.len(), 2);
    assert_eq!(catalog.get(0), list[0]);
    assert_eq!(catalog.get(1), list[1]);
    assert_eq!(catalog.width(), Width::F32);
}

#[test]
fn new_accepts_the_empty_list() {
    let catalog = Catalog::new(Width::F64, Vec::new()).unwrap();
    assert_eq!(catalog.len(), 0);
    assert_eq!(catalog.find(&describe(false, false, false, Range::Positive)), None);
}

#[test]
fn new_rejects_a_misordered_list() {
    let list = vec![
        category("StrictlyPositiveFinite", false, false, true, false),
        category("NonNaN", true, true, true, true),
        category("Positive", true, true, true, false),
    ];
    assert_eq!(
        Catalog::new(Width::F64, list).unwrap_err(),
        CatalogError::OutOfOrder { earlier: 1, later: 2 }
    );
}

#[test]
fn new_reports_the_first_misordered_pair() {
    let list = vec![
        category("NonNaN", true, true, true, true),
        category("Positive", true, true, true, false),
        category("StrictlyPositiveFinite", false, false, true, false),
    ];
    assert_eq!(
        Catalog::new(Width::F64, list).unwrap_err(),
        CatalogError::OutOfOrder { earlier: 0, later: 1 }
    );
}

#[test]
fn new_rejects_a_category_that_accepts_nan() {
    let any = FloatDefinition {
        name: "Any",
        s: FloatSpecifications {
            accept_nan: true,
            accept_inf: true,
            accept_zero: true,
            accept_positive: true,
            accept_negative: true,
        },
    };
    let list = vec![category("Positive", true, true, true, false), any];
    assert_eq!(Catalog::new(Width::F64, list).unwrap_err(), CatalogError::AcceptsNan { index: 1 });
}

#[test]
fn new_rejects_a_category_without_a_sign() {
    let list = vec![category("Zero", false, true, false, false)];
    assert_eq!(
        Catalog::new(Width::F64, list).unwrap_err(),
        CatalogError::AcceptsNoSign { index: 0 }
    );
}

#[test]
fn new_checks_the_entries_before_the_order() {
    let list = vec![
        category("NonNaN", true, true, true, true),
        category("Positive", true, true, true, false),
        category("Zero", false, true, false, false),
    ];
    assert_eq!(
        Catalog::new(Width::F64, list).unwrap_err(),
        CatalogError::AcceptsNoSign { index: 2 }
    );
}

#[test]
fn new_allows_categories_that_accept_the_same() {
    let list = vec![
        category("First", false, true, true, false),
        category("Second", false, true, true, false),
    ];
    let catalog = Catalog::new(Width::F64, list).unwrap();
    assert_eq!(catalog.find(&describe(false, true, false, Range::Positive)), Some(0));
}

#[test]
fn acceptance_order_by_flags() {
    let positive = category("Positive", true, true, true, false).s;
    let all = category("NonNaN", true, true, true, true).s;
    let finite = category("NonNaNFinite", false, true, true, true).s;
    let nothing = category("Nothing", true, true, false, false).s;
    assert!(positive.is_within(all));
    assert!(!all.is_within(positive));
    assert!(positive.strictly_within(all));
    assert!(!positive.strictly_within(positive));
    assert!(!positive.is_within(finite));
    assert!(!finite.is_within(positive));
    assert!(nothing.is_within(positive));
    assert!(nothing.strictly_within(positive));
    assert!(!positive.is_within(nothing));
}

#[test]
fn covers_reads_each_flag() {
    let s = category("PositiveFinite", false, true, true, false).s;
    assert!(s.covers(describe(false, true, false, Range::Positive)));
    assert!(s.covers(describe(false, false, false, Range::Positive)));
    assert!(!s.covers(describe(true, false, false, Range::Positive)));
    assert!(!s.covers(describe(false, false, true, Range::Positive)));
    assert!(!s.covers(describe(false, false, false, Range::Negative)));
    assert!(!s.covers(describe(false, false, false, Range::Full)));
}

#[test]
fn worst_case_sets_every_accepted_flag() {
    assert_eq!(
        category("Negative", true, true, false, true).s.worst_case(),
        describe(false, true, true, Range::Negative)
    );
    assert_eq!(
        category("NonZeroNonNaNFinite", false, false, true, true).s.worst_case(),
        describe(false, false, false, Range::Full)
    );
    assert_eq!(
        category("StrictlyPositive", true, false, true, false).s.worst_case(),
        describe(false, false, true, Range::Positive)
    );
}

#[test]
fn abs_of_negative_finite_is_positive_finite() {
    let catalog = Catalog::standard(Width::F64);
    let out = ops::abs(&FnArg::F64(describe(false, true, false, Range::Negative)));
    assert_eq!(out.possibilities(), describe(false, true, false, Range::Positive));
    assert_eq!(name_of(&catalog, &out.possibilities()), Some("PositiveFinite"));
    assert_eq!(catalog.find(&out.possibilities()), Some(2));
}

#[test]
fn zero_over_zero_has_no_category() {
    let catalog = Catalog::standard(Width::F64);
    let operand = FnArg::F64(describe(false, true, false, Range::Positive));
    let out = ops::div(&operand, &operand);
    assert!(out.possibilities().nan);
    assert_eq!(catalog.find(&out.possibilities()), None);
    assert_eq!(catalog.get_float(&out.possibilities()), None);
}

#[test]
fn ln_of_strictly_positive_finite_is_finite() {
    let catalog = Catalog::standard(Width::F64);
    let out = ops::ln(&FnArg::F64(describe(false, false, false, Range::Positive)));
    assert_eq!(out.possibilities(), describe(false, true, false, Range::Full));
    assert_eq!(name_of(&catalog, &out.possibilities()), Some("NonNaNFinite"));
}

#[test]
fn sum_of_opposite_signs_is_finite_of_any_sign() {
    let catalog = Catalog::standard(Width::F64);
    let out = ops::add(
        &FnArg::F64(describe(false, false, false, Range::Positive)),
        &FnArg::F64(describe(false, false, false, Range::Negative)),
    );
    assert!(out.possibilities().zero);
    assert_eq!(out.possibilities().range, Range::Full);
    assert_eq!(name_of(&catalog, &out.possibilities()), Some("NonNaNFinite"));
}

#[test]
fn every_description_without_nan_has_its_own_category() {
    let catalog = Catalog::standard(Width::F64);
    for zero in [false, true] {
        for infinite in [false, true] {
            for range in [Range::Full, Range::Negative, Range::Positive] {
                let c = describe(false, zero, infinite, range);
                let found = catalog.get_float(&c).unwrap();
                assert_eq!(found.s.worst_case(), c);
            }
        }
    }
}

#[test]
fn find_returns_a_narrowest_category() {
    let catalog = Catalog::standard(Width::F64);
    for zero in [false, true] {
        for infinite in [false, true] {
            for range in [Range::Full, Range::Negative, Range::Positive] {
                let c = describe(false, zero, infinite, range);
                let found = catalog.find(&c).unwrap();
                assert!(catalog.get(found).s.covers(c));
                for k in 0..catalog.len() {
                    if catalog.get(k).s.covers(c) {
                        assert!(k >= found);
                        assert!(!catalog.get(k).s.strictly_within(catalog.get(found).s));
                        assert!(catalog.get(found).s.is_within(catalog.get(k).s));
                    }
                }
            }
        }
    }
}

#[test]
fn nan_is_never_covered() {
    let catalog = Catalog::standard(Width::F64);
    for zero in [false, true] {
        for infinite in [false, true] {
            for range in [Range::Full, Range::Negative, Range::Positive] {
                assert_eq!(catalog.find(&describe(true, zero, infinite, range)), None);
            }
        }
    }
}

#[test]
fn find_reports_what_no_entry_covers() {
    let list = vec![category("PositiveFinite", false, true, true, false)];
    let catalog = Catalog::new(Width::F64, list).unwrap();
    assert_eq!(catalog.find(&describe(false, false, false, Range::Positive)), Some(0));
    assert_eq!(catalog.find(&describe(false, false, true, Range::Positive)), None);
    assert_eq!(catalog.find(&describe(false, false, false, Range::Full)), None);
}
