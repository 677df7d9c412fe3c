use float_fn_types::catalog::Catalog;
use float_fn_types::possibilities::Width;
use float_fn_types::rules::{BinaryOp, UnaryOp};
use float_fn_types::standard::category;
use float_fn_types::tables::{header, row, separator};

fn small_catalog() -> Catalog {
    let list = vec![
        category("PositiveFinite", false, true, true, false),
        category("NonNaN", true, true, true, true),
    ];
    Catalog::new(Width::F32, list).unwrap()
}

#[test]
fn operation_names_and_symbols() {
    assert_eq!(UnaryOp::Neg.name(), "neg");
    assert_eq!(UnaryOp::ToDegrees.name(), "to_degrees");
    assert_eq!(UnaryOp::ExpM1.name(), "exp_m1");
    assert_eq!(UnaryOp::Ln1p.name(), "ln_1p");
    assert_eq!(UnaryOp::Powi.name(), "powi");
    assert_eq!(BinaryOp::Add.symbol(), "+");
    assert_eq!(BinaryOp::Sub.symbol(), "-");
    assert_eq!(BinaryOp::Mul.symbol(), "*");
    assert_eq!(BinaryOp::Div.symbol(), "/");
    assert_eq!(BinaryOp::Rem.symbol(), "%");
}

#[test]
fn lines_of_a_table() {
    let names = vec!["A", "Bc"];
    assert_eq!(header("/// |   |", &names), "/// |   | A | Bc |\n");
    assert_eq!(header("x", &Vec::new()), "x\n");
    assert_eq!(separator("/// |-|", 3), "/// |-|-|-|-|\n");
    assert_eq!(separator("/// | - |", 0), "/// | - |\n");
    assert_eq!(row("neg", &names), "/// neg |  A | Bc |");
    assert_eq!(row("", &Vec::new()), "///  | ");
}

#[test]
fn names_of_the_categories_and_of_the_results() {
    let c = small_catalog();
    assert_eq!(c.names(), vec!["PositiveFinite", "NonNaN"]);
    assert_eq!(c.unary_names(UnaryOp::Abs), vec!["PositiveFinite", "NonNaN"]);
    assert_eq!(c.unary_names(UnaryOp::Sqrt), vec!["PositiveFinite", "f32"]);
    assert_eq!(c.binary_names(BinaryOp::Add, 1), vec!["NonNaN", "f32"]);
    assert_eq!(c.binary_names(BinaryOp::Rem, 0), vec!["f32", "f32"]);
}

#[test]
fn op_table_of_a_small_catalog() {
    let c = small_catalog();
    assert_eq!(
        c.generate_op_table(BinaryOp::Add),
        vec![
            "/// |  +  | PositiveFinite | NonNaN |\n",
            "/// |-|-|-|\n",
            "/// PositiveFinite |  NonNaN | NonNaN |",
            "/// NonNaN |  NonNaN | f32 |",
            "///\n",
        ]
    );
}

#[test]
fn fn_table_of_a_small_catalog() {
    let c = small_catalog();
    assert_eq!(
        c.generate_fn_table(&vec![UnaryOp::Neg, UnaryOp::Abs]),
        vec![
            "/// |   | PositiveFinite | NonNaN |\n",
            "/// | - |-|-|\n",
            "/// neg |  NonNaN | NonNaN |",
            "/// abs |  PositiveFinite | NonNaN |",
            "///\n",
        ]
    );
    assert_eq!(
        c.generate_fn_table(&Vec::new()),
        vec!["/// |   | PositiveFinite | NonNaN |\n", "/// | - |-|-|\n", "///\n"]
    );
}

#[test]
fn main_description_of_a_small_catalog() {
    let c = small_catalog();
    let lines = c.generate_main_description();
    let mut expected: Vec<String> = Vec::new();
    expected.push("/// When the result is [`f64`], it may be `NaN`.".to_string());
    expected.push("///".to_string());
    expected.extend(c.generate_fn_table(&vec![
        UnaryOp::Neg,
        UnaryOp::Abs,
        UnaryOp::Ceil,
        UnaryOp::Floor,
        UnaryOp::Round,
    ]));
    for op in [BinaryOp::Add, BinaryOp::Sub, BinaryOp::Rem, BinaryOp::Div] {
        expected.extend(c.generate_op_table(op));
    }
    expected.push("///".to_string());
    assert_eq!(lines, expected);
    assert_eq!(lines.len(), 2 + 8 + 4 * 5 + 1);
    assert_eq!(lines[10], "/// |  +  | PositiveFinite | NonNaN |\n");
    assert_eq!(lines[25], "/// |  /  | PositiveFinite | NonNaN |\n");
}

#[test]
fn main_description_of_the_standard_catalog() {
    let c = Catalog::standard(Width::F64);
    let lines = c.generate_main_description();
    assert_eq!(lines.len(), 71);
    assert_eq!(lines[0], "/// When the result is [`f64`], it may be `NaN`.");
    assert_eq!(lines[1], "///");
    assert_eq!(
        lines[2],
        "/// |   | StrictlyPositiveFinite | StrictlyNegativeFinite | PositiveFinite | \
         NegativeFinite | StrictlyPositive | StrictlyNegative | NonZeroNonNaNFinite | Positive | \
         Negative | NonNaNFinite | NonZeroNonNaN | NonNaN |\n"
    );
    assert_eq!(lines[3], "/// | - |-|-|-|-|-|-|-|-|-|-|-|-|\n");
    assert_eq!(
        lines[4],
        "/// neg |  StrictlyNegativeFinite | StrictlyPositiveFinite | NegativeFinite | \
         PositiveFinite | StrictlyNegative | StrictlyPositive | NonZeroNonNaNFinite | Negative | \
         Positive | NonNaNFinite | NonZeroNonNaN | NonNaN |"
    );
    assert_eq!(lines[9], "///\n");
    assert_eq!(lines[70], "///");
}

#[test]
fn tables_of_the_empty_catalog() {
    let c = Catalog::new(Width::F64, Vec::new()).unwrap();
    assert_eq!(c.generate_op_table(BinaryOp::Rem), vec!["/// |  %  |\n", "/// |-|\n", "///\n"]);
    assert_eq!(
        c.generate_fn_table(&vec![UnaryOp::Round]),
        vec!["/// |   |\n", "/// | - |\n", "/// round | ", "///\n"]
    );
}

#[test]
fn op_table_by_symbol_of_a_catalog_with_entries() {
    let c = small_catalog();
    assert_eq!(c.generate_op_table_by_symbol("+"), Some(c.generate_op_table(BinaryOp::Add)));
    assert_eq!(c.generate_op_table_by_symbol("-"), Some(c.generate_op_table(BinaryOp::Sub)));
    assert_eq!(c.generate_op_table_by_symbol("%"), Some(c.generate_op_table(BinaryOp::Rem)));
    assert_eq!(c.generate_op_table_by_symbol("/"), Some(c.generate_op_table(BinaryOp::Div)));
    assert_eq!(
        c.generate_op_table_by_symbol("/").unwrap()[0],
        "/// |  /  | PositiveFinite | NonNaN |\n"
    );
    assert_eq!(c.generate_op_table_by_symbol("*"), None);
    assert_eq!(c.generate_op_table_by_symbol("^"), None);
    assert_eq!(c.generate_op_table_by_symbol(""), None);
    assert_eq!(c.generate_op_table_by_symbol("neg"), None);
}

#[test]
fn op_table_by_symbol_of_the_empty_catalog() {
    let c = Catalog::new(Width::F64, Vec::new()).unwrap();
    assert_eq!(
        c.generate_op_table_by_symbol("%"),
        Some(vec!["/// |  %  |\n".to_string(), "/// |-|\n".to_string(), "///\n".to_string()])
    );
    assert_eq!(
        c.generate_op_table_by_symbol("*"),
        Some(vec!["/// |  *  |\n".to_string(), "/// |-|\n".to_string(), "///\n".to_string()])
    );
    assert_eq!(
        c.generate_op_table_by_symbol("pow"),
        Some(vec!["/// |  pow  |\n".to_string(), "/// |-|\n".to_string(), "///\n".to_string()])
    );
}

#[test]
fn the_note_of_the_description_names_f64_for_either_width() {
    let note = "/// When the result is [`f64`], it may be `NaN`.";
    assert_eq!(Catalog::standard(Width::F32).generate_main_description()[0], note);
    assert_eq!(Catalog::standard(Width::F64).generate_main_description()[0], note);
}
