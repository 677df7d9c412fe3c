//! The registry of operations: every operation, and the way from a name to
//! the operation that bears it.
use vstd::prelude::*;
use crate::possibilities::Width;
use crate::rules::{BinaryOp, Operation, UnaryOp};

verus! {

/// Every unary operation, once.
pub open spec fn all_unary_ops() -> Seq<UnaryOp> {
    seq![
        UnaryOp::Neg,
        UnaryOp::Abs,
        UnaryOp::Ceil,
        UnaryOp::Floor,
        UnaryOp::Round,
        UnaryOp::Trunc,
        UnaryOp::Fract,
        UnaryOp::Signum,
        UnaryOp::Sqrt,
        UnaryOp::Exp,
        UnaryOp::Exp2,
        UnaryOp::Ln,
        UnaryOp::Log2,
        UnaryOp::Log10,
        UnaryOp::ToDegrees,
        UnaryOp::ToRadians,
        UnaryOp::Cbrt,
        UnaryOp::Sin,
        UnaryOp::Cos,
        UnaryOp::Tan,
        UnaryOp::Asin,
        UnaryOp::Acos,
        UnaryOp::Atan,
        UnaryOp::ExpM1,
        UnaryOp::Ln1p,
        UnaryOp::Sinh,
        UnaryOp::Cosh,
        UnaryOp::Tanh,
        UnaryOp::Asinh,
        UnaryOp::Acosh,
        UnaryOp::Atanh,
        UnaryOp::Recip,
        UnaryOp::Powi,
    ]
}

/// Every binary operation, once.
pub open spec fn all_binary_ops() -> Seq<BinaryOp> {
    seq![BinaryOp::Add, BinaryOp::Sub, BinaryOp::Mul, BinaryOp::Div, BinaryOp::Rem]
}

/// Where a unary operation stands in the list of all of them.
pub open spec fn unary_position(op: UnaryOp) -> int {
    match op {
        UnaryOp::Neg => 0,
        UnaryOp::Abs => 1,
        UnaryOp::Ceil => 2,
        UnaryOp::Floor => 3,
        UnaryOp::Round => 4,
        UnaryOp::Trunc => 5,
        UnaryOp::Fract => 6,
        UnaryOp::Signum => 7,
        UnaryOp::Sqrt => 8,
        UnaryOp::Exp => 9,
        UnaryOp::Exp2 => 10,
        UnaryOp::Ln => 11,
        UnaryOp::Log2 => 12,
        UnaryOp::Log10 => 13,
        UnaryOp::ToDegrees => 14,
        UnaryOp::ToRadians => 15,
        UnaryOp::Cbrt => 16,
        UnaryOp::Sin => 17,
        UnaryOp::Cos => 18,
        UnaryOp::Tan => 19,
        UnaryOp::Asin => 20,
        UnaryOp::Acos => 21,
        UnaryOp::Atan => 22,
        UnaryOp::ExpM1 => 23,
        UnaryOp::Ln1p => 24,
        UnaryOp::Sinh => 25,
        UnaryOp::Cosh => 26,
        UnaryOp::Tanh => 27,
        UnaryOp::Asinh => 28,
        UnaryOp::Acosh => 29,
        UnaryOp::Atanh => 30,
        UnaryOp::Recip => 31,
        UnaryOp::Powi => 32,
    }
}

/// Where a binary operation stands in the list of all of them.
pub open spec fn binary_position(op: BinaryOp) -> int {
    match op {
        BinaryOp::Add => 0,
        BinaryOp::Sub => 1,
        BinaryOp::Mul => 2,
        BinaryOp::Div => 3,
        BinaryOp::Rem => 4,
    }
}

/// The list of the unary operations leaves none out.
pub proof fn lemma_all_unary_ops_is_complete(op: UnaryOp)
    ensures
        0 <= unary_position(op) < all_unary_ops().len(),
        all_unary_ops()[unary_position(op)] == op,
{
}

/// The list of the binary operations leaves none out.
pub proof fn lemma_all_binary_ops_is_complete(op: BinaryOp)
    ensures
        0 <= binary_position(op) < all_binary_ops().len(),
        all_binary_ops()[binary_position(op)] == op,
{
}

/// The length of a text and its first four characters, as far as it has them.
pub open spec fn glance(text: Seq<char>) -> (nat, char, char, char, char) {
    (
        text.len(),
        if text.len() > 0 {
            text[0]
        } else {
            ' '
        },
        if text.len() > 1 {
            text[1]
        } else {
            ' '
        },
        if text.len() > 2 {
            text[2]
        } else {
            ' '
        },
        if text.len() > 3 {
            text[3]
        } else {
            ' '
        },
    )
}

/// The names of the unary operations at a glance: each has two characters
/// or more, and no two look alike.
pub proof fn lemma_unary_names_at_a_glance(a: UnaryOp, b: UnaryOp)
    ensures
        a.name()@.len() >= 2,
        a != b ==> glance(a.name()@) != glance(b.name()@),
{
    reveal_strlit("neg");
    reveal_strlit("abs");
    reveal_strlit("ceil");
    reveal_strlit("floor");
    reveal_strlit("round");
    reveal_strlit("trunc");
    reveal_strlit("fract");
    reveal_strlit("signum");
    reveal_strlit("sqrt");
    reveal_strlit("exp");
    reveal_strlit("exp2");
    reveal_strlit("ln");
    reveal_strlit("log2");
    reveal_strlit("log10");
    reveal_strlit("to_degrees");
    reveal_strlit("to_radians");
    reveal_strlit("cbrt");
    reveal_strlit("sin");
    reveal_strlit("cos");
    reveal_strlit("tan");
    reveal_strlit("asin");
    reveal_strlit("acos");
    reveal_strlit("atan");
    reveal_strlit("exp_m1");
    reveal_strlit("ln_1p");
    reveal_strlit("sinh");
    reveal_strlit("cosh");
    reveal_strlit("tanh");
    reveal_strlit("asinh");
    reveal_strlit("acosh");
    reveal_strlit("atanh");
    reveal_strlit("recip");
    reveal_strlit("powi");
}

/// The operator signs at a glance: each is one character, and no two look
/// alike.
pub proof fn lemma_binary_symbols_at_a_glance(a: BinaryOp, b: BinaryOp)
    ensures
        a.symbol()@.len() == 1,
        a != b ==> glance(a.symbol()@) != glance(b.symbol()@),
{
    reveal_strlit("+");
    reveal_strlit("-");
    reveal_strlit("*");
    reveal_strlit("/");
    reveal_strlit("%");
}

/// No two unary operations have the same name.
pub proof fn lemma_unary_names_differ(a: UnaryOp, b: UnaryOp)
    requires
        a != b,
    ensures
        a.name()@ != b.name()@,
{
    lemma_unary_names_at_a_glance(a, b);
}

/// No two binary operations have the same operator sign.
pub proof fn lemma_binary_symbols_differ(a: BinaryOp, b: BinaryOp)
    requires
        a != b,
    ensures
        a.symbol()@ != b.symbol()@,
{
    lemma_binary_symbols_at_a_glance(a, b);
}

/// No unary operation is named by an operator sign.
pub proof fn lemma_names_are_no_symbols(a: UnaryOp, b: BinaryOp)
    ensures
        a.name()@ != b.symbol()@,
{
    lemma_unary_names_at_a_glance(a, a);
    lemma_binary_symbols_at_a_glance(b, b);
}

/// The name by which an operation is looked up: the name of a unary
/// operation, the operator sign of a binary one.
pub open spec fn operation_name(op: Operation) -> &'static str {
    match op {
        Operation::Unary(op) => op.name(),
        Operation::Binary(op) => op.symbol(),
    }
}

/// Every unary operation, once.
pub fn unary_ops() -> (res: Vec<UnaryOp>)
    ensures
        res@ == all_unary_ops(),
{
    let mut ops: Vec<UnaryOp> = Vec::new();
    ops.push(UnaryOp::Neg);
    ops.push(UnaryOp::Abs);
    ops.push(UnaryOp::Ceil);
    ops.push(UnaryOp::Floor);
    ops.push(UnaryOp::Round);
    ops.push(UnaryOp::Trunc);
    ops.push(UnaryOp::Fract);
    ops.push(UnaryOp::Signum);
    ops.push(UnaryOp::Sqrt);
    ops.push(UnaryOp::Exp);
    ops.push(UnaryOp::Exp2);
    ops.push(UnaryOp::Ln);
    ops.push(UnaryOp::Log2);
    ops.push(UnaryOp::Log10);
    ops.push(UnaryOp::ToDegrees);
    ops.push(UnaryOp::ToRadians);
    ops.push(UnaryOp::Cbrt);
    ops.push(UnaryOp::Sin);
    ops.push(UnaryOp::Cos);
    ops.push(UnaryOp::Tan);
    ops.push(UnaryOp::Asin);
    ops.push(UnaryOp::Acos);
    ops.push(UnaryOp::Atan);
    ops.push(UnaryOp::ExpM1);
    ops.push(UnaryOp::Ln1p);
    ops.push(UnaryOp::Sinh);
    ops.push(UnaryOp::Cosh);
    ops.push(UnaryOp::Tanh);
    ops.push(UnaryOp::Asinh);
    ops.push(UnaryOp::Acosh);
    ops.push(UnaryOp::Atanh);
    ops.push(UnaryOp::Recip);
    ops.push(UnaryOp::Powi);
    proof {
        assert(ops@ =~= all_unary_ops());
    }
    ops
}

/// Every binary operation, once.
pub fn binary_ops() -> (res: Vec<BinaryOp>)
    ensures
        res@ == all_binary_ops(),
{
    let mut ops: Vec<BinaryOp> = Vec::new();
    ops.push(BinaryOp::Add);
    ops.push(BinaryOp::Sub);
    ops.push(BinaryOp::Mul);
    ops.push(BinaryOp::Div);
    ops.push(BinaryOp::Rem);
    proof {
        assert(ops@ =~= all_binary_ops());
    }
    ops
}

/// Whether two strings hold the same text.
pub fn same_text(a: &str, b: &str) -> (res: bool)
    ensures
        res == (a@ == b@),
{
    let n: usize = a.unicode_len();
    if n != b.unicode_len() {
        return false;
    }
    let mut i: usize = 0;
    while i < n
        invariant
            n == a@.len(),
            n == b@.len(),
            i <= n,
            forall|k: int| 0 <= k < i ==> a@[k] == b@[k],
        decreases n - i,
    {
        if a.get_char(i) != b.get_char(i) {
            return false;
        }
        i += 1;
    }
    proof {
        assert(a@ =~= b@);
    }
    true
}

/// The width whose primitive float type has the given name: `f32` or `f64`.
/// `None` for every other name.
pub fn width_by_float_type(name: &str) -> (res: Option<Width>)
    ensures
        match res {
            Some(width) => forall|other: Width| other.float_type()@ == name@ <==> other == width,
            None => forall|width: Width| width.float_type()@ != name@,
        },
{
    proof {
        reveal_strlit("f32");
        reveal_strlit("f64");
        assert(glance("f32"@) != glance("f64"@));
    }
    if same_text(Width::F32.float_type(), name) {
        Some(Width::F32)
    } else if same_text(Width::F64.float_type(), name) {
        Some(Width::F64)
    } else {
        None
    }
}

/// The unary operation of the given name: the only one that bears it, or
/// `None` where none does.
pub fn unary_by_name(name: &str) -> (res: Option<UnaryOp>)
    ensures
        match res {
            Some(op) => forall|other: UnaryOp| other.name()@ == name@ <==> other == op,
            None => forall|op: UnaryOp| op.name()@ != name@,
        },
{
    let ops = unary_ops();
    let n: usize = ops.len();
    let mut i: usize = 0;
    while i < n
        invariant
            ops@ == all_unary_ops(),
            n == ops@.len(),
            i <= n,
            forall|k: int| 0 <= k < i ==> (#[trigger] ops@[k]).name()@ != name@,
        decreases n - i,
    {
        if same_text(ops[i].name(), name) {
            proof {
                assert forall|other: UnaryOp| other.name()@ == name@ implies other == ops@[i as int] by {
                    if other != ops@[i as int] {
                        lemma_unary_names_differ(other, ops@[i as int]);
                    }
                }
            }
            return Some(ops[i]);
        }
        i += 1;
    }
    proof {
        assert forall|op: UnaryOp| op.name()@ != name@ by {
            lemma_all_unary_ops_is_complete(op);
            assert(ops@[unary_position(op)] == op);
        }
    }
    None
}

/// The binary operation of the given operator sign: the only one that bears
/// it, or `None` where none does.
pub fn binary_by_symbol(symbol: &str) -> (res: Option<BinaryOp>)
    ensures
        match res {
            Some(op) => forall|other: BinaryOp| other.symbol()@ == symbol@ <==> other == op,
            None => forall|op: BinaryOp| op.symbol()@ != symbol@,
        },
{
    let ops = binary_ops();
    let n: usize = ops.len();
    let mut i: usize = 0;
    while i < n
        invariant
            ops@ == all_binary_ops(),
            n == ops@.len(),
            i <= n,
            forall|k: int| 0 <= k < i ==> (#[trigger] ops@[k]).symbol()@ != symbol@,
        decreases n - i,
    {
        if same_text(ops[i].symbol(), symbol) {
            proof {
                assert forall|other: BinaryOp| other.symbol()@ == symbol@ implies other == ops@[i as int] by {
                    if other != ops@[i as int] {
                        lemma_binary_symbols_differ(other, ops@[i as int]);
                    }
                }
            }
            return Some(ops[i]);
        }
        i += 1;
    }
    proof {
        assert forall|op: BinaryOp| op.symbol()@ != symbol@ by {
            lemma_all_binary_ops_is_complete(op);
            assert(ops@[binary_position(op)] == op);
        }
    }
    None
}

/// The operation that is looked up by `name`: a unary operation by its name,
/// a binary one by its operator sign. The operation found is the only one
/// that bears the name; `None` exactly where no operation bears it.
pub fn lookup(name: &str) -> (res: Option<Operation>)
    ensures
        match res {
            Some(op) => forall|other: Operation| operation_name(other)@ == name@ <==> other == op,
            None => forall|op: Operation| operation_name(op)@ != name@,
        },
{
    match unary_by_name(name) {
        Some(op) => {
            proof {
                assert forall|other: Operation| operation_name(other)@ == name@ implies other
                    == Operation::Unary(op) by {
                    match other {
                        Operation::Unary(_) => {},
                        Operation::Binary(b) => {
                            lemma_names_are_no_symbols(op, b);
                        },
                    }
                }
            }
            Some(Operation::Unary(op))
        },
        None => match binary_by_symbol(name) {
            Some(op) => Some(Operation::Binary(op)),
            None => None,
        },
    }
}

} // verus!
