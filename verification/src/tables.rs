//! The tables of results as text: one line of documentation for each row.
use vstd::prelude::*;
use crate::catalog::Catalog;
use crate::category::FloatDefinition;
use crate::matrix::{binary_cell, published_name, unary_cell};
use crate::possibilities::Width;
use crate::registry::binary_by_symbol;
use crate::rules::{BinaryOp, UnaryOp};

verus! {

/// The names of the categories, in the order of the catalog.
pub open spec fn category_names(entries: Seq<FloatDefinition>) -> Seq<&'static str> {
    Seq::new(entries.len(), |k: int| entries[k].name)
}

/// The names of the results of `op`, one for each category of the operand.
pub open spec fn unary_names(entries: Seq<FloatDefinition>, width: Width, op: UnaryOp) -> Seq<
    &'static str,
> {
    Seq::new(entries.len(), |k: int| published_name(entries, width, unary_cell(entries, op, k)))
}

/// The names of the results of `op` on a left operand of the category at
/// `lhs`, one for each category of the right operand.
pub open spec fn binary_names(
    entries: Seq<FloatDefinition>,
    width: Width,
    op: BinaryOp,
    lhs: int,
) -> Seq<&'static str> {
    Seq::new(
        entries.len(),
        |k: int| published_name(entries, width, binary_cell(entries, op, lhs, k)),
    )
}

/// `start`, followed by a cell for each of the first `n` names: a space, the
/// name, a space and a bar.
pub open spec fn with_cells(start: Seq<char>, names: Seq<&'static str>, n: int) -> Seq<char>
    decreases n,
{
    if n <= 0 {
        start
    } else {
        with_cells(start, names, n - 1) + " "@ + names[n - 1]@ + " |"@
    }
}

/// `start`, followed by `n` cells of one dash.
pub open spec fn with_dashes(start: Seq<char>, n: int) -> Seq<char>
    decreases n,
{
    if n <= 0 {
        start
    } else {
        with_dashes(start, n - 1) + "-|"@
    }
}

/// The head of a table: the corner cell and the names of the columns.
pub open spec fn header_line(corner: Seq<char>, names: Seq<&'static str>) -> Seq<char> {
    with_cells(corner, names, names.len() as int) + "\n"@
}

/// The line under the head of a table of `n` columns.
pub open spec fn separator_line(corner: Seq<char>, n: int) -> Seq<char> {
    with_dashes(corner, n) + "\n"@
}

/// A row of a table: its label and the names in its cells.
pub open spec fn row_line(label: Seq<char>, names: Seq<&'static str>) -> Seq<char> {
    with_cells("/// "@ + label + " | "@, names, names.len() as int)
}

/// The head of the table of a binary operation, its separator, and the first
/// `n` rows.
pub open spec fn binary_rows(
    entries: Seq<FloatDefinition>,
    width: Width,
    op: BinaryOp,
    n: int,
) -> Seq<Seq<char>>
    decreases n,
{
    if n <= 0 {
        seq![
            header_line("/// |  "@ + op.symbol()@ + "  |"@, category_names(entries)),
            separator_line("/// |-|"@, entries.len() as int),
        ]
    } else {
        binary_rows(entries, width, op, n - 1).push(
            row_line(entries[n - 1].name@, binary_names(entries, width, op, n - 1)),
        )
    }
}

/// The table of a binary operation: a head with the categories of the right
/// operand, and a row for each category of the left operand.
pub open spec fn binary_table_text(
    entries: Seq<FloatDefinition>,
    width: Width,
    op: BinaryOp,
) -> Seq<Seq<char>> {
    binary_rows(entries, width, op, entries.len() as int).push("///\n"@)
}

/// The head of the table of unary operations, its separator, and the rows of
/// the first `n` operations.
pub open spec fn unary_rows(
    entries: Seq<FloatDefinition>,
    width: Width,
    ops: Seq<UnaryOp>,
    n: int,
) -> Seq<Seq<char>>
    decreases n,
{
    if n <= 0 {
        seq![
            header_line("/// |   |"@, category_names(entries)),
            separator_line("/// | - |"@, entries.len() as int),
        ]
    } else {
        unary_rows(entries, width, ops, n - 1).push(
            row_line(ops[n - 1].name()@, unary_names(entries, width, ops[n - 1])),
        )
    }
}

/// The table of some unary operations: a head with the categories of the
/// operand, and a row for each operation.
pub open spec fn unary_table_text(
    entries: Seq<FloatDefinition>,
    width: Width,
    ops: Seq<UnaryOp>,
) -> Seq<Seq<char>> {
    unary_rows(entries, width, ops, ops.len() as int).push("///\n"@)
}

/// The operation whose table a sign asks for: sum, difference, remainder or
/// quotient. No other text asks for a table.
pub open spec fn tabled_op(symbol: Seq<char>) -> Option<BinaryOp> {
    if symbol == BinaryOp::Add.symbol()@ {
        Some(BinaryOp::Add)
    } else if symbol == BinaryOp::Sub.symbol()@ {
        Some(BinaryOp::Sub)
    } else if symbol == BinaryOp::Rem.symbol()@ {
        Some(BinaryOp::Rem)
    } else if symbol == BinaryOp::Div.symbol()@ {
        Some(BinaryOp::Div)
    } else {
        None
    }
}

/// The table that is asked for by the text `symbol`. A sign that has a
/// table gives the table of its operation. Any other text gives a table
/// only for the empty catalog, where no cell has to be filled: its head
/// shows the text as it is. For a catalog with entries there is none.
pub open spec fn symbol_table_text(
    entries: Seq<FloatDefinition>,
    width: Width,
    symbol: Seq<char>,
) -> Option<Seq<Seq<char>>> {
    match tabled_op(symbol) {
        Some(op) => Some(binary_table_text(entries, width, op)),
        None => if entries.len() == 0 {
            Some(
                seq![
                    header_line("/// |  "@ + symbol + "  |"@, category_names(entries)),
                    separator_line("/// |-|"@, entries.len() as int),
                    "///\n"@,
                ],
            )
        } else {
            None
        },
    }
}

/// The unary operations that the description shows.
pub open spec fn described_ops() -> Seq<UnaryOp> {
    seq![UnaryOp::Neg, UnaryOp::Abs, UnaryOp::Ceil, UnaryOp::Floor, UnaryOp::Round]
}

/// The description of a catalog: a note on the unrefined results, which
/// names `f64` for a catalog of either width, the table of the unary
/// operations, and the tables of sum, difference, remainder and quotient.
pub open spec fn description_text(entries: Seq<FloatDefinition>, width: Width) -> Seq<Seq<char>> {
    (seq![
        "/// When the result is [`f64`], it may be `NaN`."@,
        "///"@,
    ] + unary_table_text(entries, width, described_ops()) + binary_table_text(
        entries,
        width,
        BinaryOp::Add,
    ) + binary_table_text(entries, width, BinaryOp::Sub) + binary_table_text(
        entries,
        width,
        BinaryOp::Rem,
    ) + binary_table_text(entries, width, BinaryOp::Div)).push("///"@)
}

/// The text of each line.
pub open spec fn lines_of(lines: Seq<String>) -> Seq<Seq<char>> {
    lines.map_values(|line: String| line@)
}

/// Appends a cell for each name to `text`.
fn push_cells(text: &mut String, names: &Vec<&'static str>)
    ensures
        final(text)@ == with_cells(old(text)@, names@, names@.len() as int),
{
    let n: usize = names.len();
    let mut k: usize = 0;
    while k < n
        invariant
            n == names@.len(),
            k <= n,
            text@ == with_cells(old(text)@, names@, k as int),
        decreases n - k,
    {
        text.append(" ");
        text.append(names[k]);
        text.append(" |");
        k += 1;
    }
}

/// Appends `n` cells of one dash to `text`.
fn push_dashes(text: &mut String, n: usize)
    ensures
        final(text)@ == with_dashes(old(text)@, n as int),
{
    let mut k: usize = 0;
    while k < n
        invariant
            k <= n,
            text@ == with_dashes(old(text)@, k as int),
        decreases n - k,
    {
        text.append("-|");
        k += 1;
    }
}

/// The head of a table.
pub fn header(corner: &str, names: &Vec<&'static str>) -> (res: String)
    ensures
        res@ == header_line(corner@, names@),
{
    let mut text = String::from_str(corner);
    push_cells(&mut text, names);
    text.append("\n");
    text
}

/// The line under the head of a table of `n` columns.
pub fn separator(corner: &str, n: usize) -> (res: String)
    ensures
        res@ == separator_line(corner@, n as int),
{
    let mut text = String::from_str(corner);
    push_dashes(&mut text, n);
    text.append("\n");
    text
}

/// A row of a table.
pub fn row(label: &str, names: &Vec<&'static str>) -> (res: String)
    ensures
        res@ == row_line(label@, names@),
{
    let mut text = String::from_str("/// ");
    text.append(label);
    text.append(" | ");
    push_cells(&mut text, names);
    text
}

impl Catalog {
    /// The names of the categories.
    pub fn names(&self) -> (res: Vec<&'static str>)
        ensures
            res@ == category_names(self@),
    {
        let n: usize = self.len();
        let mut names: Vec<&'static str> = Vec::new();
        let mut k: usize = 0;
        while k < n
            invariant
                n == self@.len(),
                k <= n,
                names@.len() == k,
                forall|i: int| 0 <= i < k ==> names@[i] == self@[i].name,
            decreases n - k,
        {
            names.push(self.get(k).name);
            k += 1;
        }
        proof {
            assert(names@ =~= category_names(self@));
        }
        names
    }

    /// The names of the results of `op`, one for each category of the
    /// operand.
    pub fn unary_names(&self, op: UnaryOp) -> (res: Vec<&'static str>)
        requires
            self.wf(),
        ensures
            res@ == unary_names(self@, self.width(), op),
    {
        let n: usize = self.len();
        let mut names: Vec<&'static str> = Vec::new();
        let mut k: usize = 0;
        while k < n
            invariant
                self.wf(),
                n == self@.len(),
                k <= n,
                names@.len() == k,
                forall|i: int|
                    0 <= i < k ==> names@[i] == published_name(
                        self@,
                        self.width(),
                        unary_cell(self@, op, i),
                    ),
            decreases n - k,
        {
            let found = self.unary_result(op, k);
            names.push(self.result_name(found));
            k += 1;
        }
        proof {
            assert(names@ =~= unary_names(self@, self.width(), op));
        }
        names
    }

    /// The names of the results of `op` on a left operand of the category at
    /// `lhs`, one for each category of the right operand.
    pub fn binary_names(&self, op: BinaryOp, lhs: usize) -> (res: Vec<&'static str>)
        requires
            self.wf(),
            lhs < self@.len(),
        ensures
            res@ == binary_names(self@, self.width(), op, lhs as int),
    {
        let n: usize = self.len();
        let mut names: Vec<&'static str> = Vec::new();
        let mut k: usize = 0;
        while k < n
            invariant
                self.wf(),
                n == self@.len(),
                lhs < n,
                k <= n,
                names@.len() == k,
                forall|i: int|
                    0 <= i < k ==> names@[i] == published_name(
                        self@,
                        self.width(),
                        binary_cell(self@, op, lhs as int, i),
                    ),
            decreases n - k,
        {
            let found = self.binary_result(op, lhs, k);
            names.push(self.result_name(found));
            k += 1;
        }
        proof {
            assert(names@ =~= binary_names(self@, self.width(), op, lhs as int));
        }
        names
    }

    /// The table of a binary operation, line by line. Tables are drawn for
    /// sums, differences, quotients and remainders; products have none.
    pub fn generate_op_table(&self, op: BinaryOp) -> (res: Vec<String>)
        requires
            self.wf(),
            op != BinaryOp::Mul,
        ensures
            lines_of(res@) == binary_table_text(self@, self.width(), op),
    {
        let n: usize = self.len();
        let names = self.names();
        let mut corner = String::from_str("/// |  ");
        corner.append(op.symbol());
        corner.append("  |");
        let mut lines: Vec<String> = Vec::new();
        lines.push(header(corner.as_str(), &names));
        lines.push(separator("/// |-|", n));
        proof {
            assert(lines_of(lines@) =~= binary_rows(self@, self.width(), op, 0));
        }
        let mut lhs: usize = 0;
        while lhs < n
            invariant
                self.wf(),
                n == self@.len(),
                lhs <= n,
                lines_of(lines@) == binary_rows(self@, self.width(), op, lhs as int),
            decreases n - lhs,
        {
            let ghost before = lines@;
            let cells = self.binary_names(op, lhs);
            let line = row(self.get(lhs).name, &cells);
            lines.push(line);
            proof {
                assert(lines_of(lines@) =~= lines_of(before).push(line@));
            }
            lhs += 1;
        }
        let ghost before = lines@;
        let last = String::from_str("///\n");
        lines.push(last);
        proof {
            assert(lines_of(lines@) =~= lines_of(before).push(last@));
        }
        lines
    }

    /// The table that the text `symbol` asks for, line by line: the table of
    /// the sum for `+`, of the difference for `-`, of the remainder for `%`,
    /// of the quotient for `/`. For any other text the empty catalog still
    /// has a table, of head, separator and closing line; a catalog with
    /// entries has none, and the result is `None`.
    pub fn generate_op_table_by_symbol(&self, symbol: &str) -> (res: Option<Vec<String>>)
        requires
            self.wf(),
        ensures
            res is None <==> self@.len() > 0 && tabled_op(symbol@) is None,
            match res {
                Some(lines) => symbol_table_text(self@, self.width(), symbol@) == Some(
                    lines_of(lines@),
                ),
                None => symbol_table_text(self@, self.width(), symbol@) is None,
            },
    {
        let found = match binary_by_symbol(symbol) {
            Some(BinaryOp::Mul) => None,
            other => other,
        };
        match found {
            Some(op) => Some(self.generate_op_table(op)),
            None => {
                if self.len() == 0 {
                    let names = self.names();
                    let mut corner = String::from_str("/// |  ");
                    corner.append(symbol);
                    corner.append("  |");
                    let mut lines: Vec<String> = Vec::new();
                    lines.push(header(corner.as_str(), &names));
                    lines.push(separator("/// |-|", self.len()));
                    lines.push(String::from_str("///\n"));
                    proof {
                        assert(lines_of(lines@) =~= seq![
                            header_line("/// |  "@ + symbol@ + "  |"@, category_names(self@)),
                            separator_line("/// |-|"@, self@.len() as int),
                            "///\n"@,
                        ]);
                    }
                    Some(lines)
                } else {
                    None
                }
            },
        }
    }

    /// The table of the given unary operations, line by line.
    pub fn generate_fn_table(&self, ops: &Vec<UnaryOp>) -> (res: Vec<String>)
        requires
            self.wf(),
        ensures
            lines_of(res@) == unary_table_text(self@, self.width(), ops@),
    {
        let n: usize = ops.len();
        let names = self.names();
        let mut lines: Vec<String> = Vec::new();
        lines.push(header("/// |   |", &names));
        lines.push(separator("/// | - |", self.len()));
        proof {
            assert(lines_of(lines@) =~= unary_rows(self@, self.width(), ops@, 0));
        }
        let mut k: usize = 0;
        while k < n
            invariant
                self.wf(),
                n == ops@.len(),
                k <= n,
                lines_of(lines@) == unary_rows(self@, self.width(), ops@, k as int),
            decreases n - k,
        {
            let ghost before = lines@;
            let op = ops[k];
            let cells = self.unary_names(op);
            let line = row(op.name(), &cells);
            lines.push(line);
            proof {
                assert(lines_of(lines@) =~= lines_of(before).push(line@));
            }
            k += 1;
        }
        let ghost before = lines@;
        let last = String::from_str("///\n");
        lines.push(last);
        proof {
            assert(lines_of(lines@) =~= lines_of(before).push(last@));
        }
        lines
    }

    /// The description of the catalog, line by line.
    pub fn generate_main_description(&self) -> (res: Vec<String>)
        requires
            self.wf(),
        ensures
            lines_of(res@) == description_text(self@, self.width()),
    {
        let note = String::from_str("/// When the result is [`f64`], it may be `NaN`.");
        let rule = String::from_str("///");
        let mut lines: Vec<String> = Vec::new();
        lines.push(note);
        lines.push(rule);
        let ghost head = lines_of(lines@);
        proof {
            assert(head =~= seq!["/// When the result is [`f64`], it may be `NaN`."@, "///"@]);
        }
        let mut ops: Vec<UnaryOp> = Vec::new();
        ops.push(UnaryOp::Neg);
        ops.push(UnaryOp::Abs);
        ops.push(UnaryOp::Ceil);
        ops.push(UnaryOp::Floor);
        ops.push(UnaryOp::Round);
        proof {
            assert(ops@ =~= described_ops());
        }
        let mut unary = self.generate_fn_table(&ops);
        let mut sums = self.generate_op_table(BinaryOp::Add);
        let mut differences = self.generate_op_table(BinaryOp::Sub);
        let mut remainders = self.generate_op_table(BinaryOp::Rem);
        let mut quotients = self.generate_op_table(BinaryOp::Div);
        let ghost t1 = lines_of(unary@);
        let ghost t2 = lines_of(sums@);
        let ghost t3 = lines_of(differences@);
        let ghost t4 = lines_of(remainders@);
        let ghost t5 = lines_of(quotients@);
        lines.append(&mut unary);
        proof {
            assert(lines_of(lines@) =~= head + t1);
        }
        lines.append(&mut sums);
        proof {
            assert(lines_of(lines@) =~= head + t1 + t2);
        }
        lines.append(&mut differences);
        proof {
            assert(lines_of(lines@) =~= head + t1 + t2 + t3);
        }
        lines.append(&mut remainders);
        proof {
            assert(lines_of(lines@) =~= head + t1 + t2 + t3 + t4);
        }
        lines.append(&mut quotients);
        proof {
            assert(lines_of(lines@) =~= head + t1 + t2 + t3 + t4 + t5);
        }
        let last = String::from_str("///");
        lines.push(last);
        proof {
            assert(lines_of(lines@) =~= (head + t1 + t2 + t3 + t4 + t5).push("///"@));
        }
        lines
    }
}

} // verus!
