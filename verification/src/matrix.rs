//! The table of results: for an operation and the categories of its operands,
//! the narrowest category that is sure to hold the result.
use vstd::prelude::*;
use crate::catalog::{entry_ok, index_of, narrowest, Catalog};
use crate::category::{FloatDefinition, FloatSpecifications};
use crate::possibilities::{FnArg, Width};
use crate::registry::{all_binary_ops, all_unary_ops, binary_ops, unary_ops};
use crate::rules::{BinaryOp, UnaryOp};

verus! {

/// The category of the result of `op` on an operand of the category at
/// `lhs`: the operand is taken at its worst case, the rule of the operation
/// gives what the result may be, and the narrowest category that covers it is
/// the answer. `None` stands for the unrefined float.
pub open spec fn unary_cell(entries: Seq<FloatDefinition>, op: UnaryOp, lhs: int) -> Option<int> {
    narrowest(entries, op.rule(entries[lhs].s.worst_case()))
}

/// The category of the result of `op` on operands of the categories at `lhs`
/// and `rhs`.
pub open spec fn binary_cell(
    entries: Seq<FloatDefinition>,
    op: BinaryOp,
    lhs: int,
    rhs: int,
) -> Option<int> {
    narrowest(entries, op.rule(entries[lhs].s.worst_case(), entries[rhs].s.worst_case()))
}

/// The name under which a result is published: the name of its category, or
/// the primitive float type where there is none.
pub open spec fn published_name(
    entries: Seq<FloatDefinition>,
    width: Width,
    found: Option<int>,
) -> &'static str {
    match found {
        Some(i) => entries[i].name,
        None => width.float_type(),
    }
}

/// What a published result accepts: what its category accepts, or anything
/// at all, NaN too, where the result is an unrefined float.
pub open spec fn published_specifications(
    entries: Seq<FloatDefinition>,
    found: Option<int>,
) -> FloatSpecifications {
    match found {
        Some(i) => entries[i].s,
        None => FloatSpecifications {
            accept_nan: true,
            accept_inf: true,
            accept_zero: true,
            accept_positive: true,
            accept_negative: true,
        },
    }
}

impl Catalog {
    /// The worst case of the category at `index`, as an operand.
    pub fn operand(&self, index: usize) -> (res: FnArg)
        requires
            self.wf(),
            index < self@.len(),
        ensures
            res == FnArg::new(self.width(), self@[index as int].s.worst_case()),
    {
        proof {
            assert(entry_ok(self@[index as int]));
        }
        FnArg::new(self.width(), self.get(index).s.worst_case())
    }

    /// One cell of the table of a unary operation.
    pub fn unary_result(&self, op: UnaryOp, lhs: usize) -> (res: Option<usize>)
        requires
            self.wf(),
            lhs < self@.len(),
        ensures
            index_of(res) == unary_cell(self@, op, lhs as int),
            res matches Some(i) ==> i < self@.len(),
    {
        let operand = self.operand(lhs);
        let result = op.apply(&operand);
        self.find(&result.possibilities())
    }

    /// One cell of the table of a binary operation.
    pub fn binary_result(&self, op: BinaryOp, lhs: usize, rhs: usize) -> (res: Option<usize>)
        requires
            self.wf(),
            lhs < self@.len(),
            rhs < self@.len(),
        ensures
            index_of(res) == binary_cell(self@, op, lhs as int, rhs as int),
            res matches Some(i) ==> i < self@.len(),
    {
        let left = self.operand(lhs);
        let right = self.operand(rhs);
        let result = op.apply(&left, &right);
        self.find(&result.possibilities())
    }

    /// The table of a unary operation: one cell for each category.
    pub fn unary_row(&self, op: UnaryOp) -> (res: Vec<Option<usize>>)
        requires
            self.wf(),
        ensures
            res@.len() == self@.len(),
            forall|lhs: int|
                0 <= lhs < self@.len() ==> index_of(#[trigger] res@[lhs]) == unary_cell(
                    self@,
                    op,
                    lhs,
                ),
    {
        let n: usize = self.len();
        let mut row: Vec<Option<usize>> = Vec::new();
        let mut lhs: usize = 0;
        while lhs < n
            invariant
                self.wf(),
                n == self@.len(),
                lhs <= n,
                row@.len() == lhs,
                forall|k: int|
                    0 <= k < lhs ==> index_of(#[trigger] row@[k]) == unary_cell(self@, op, k),
            decreases n - lhs,
        {
            let cell = self.unary_result(op, lhs);
            row.push(cell);
            lhs += 1;
        }
        row
    }

    /// One row of the table of a binary operation: the left operand is of the
    /// category at `lhs`, the right operand of each category in turn.
    pub fn binary_row(&self, op: BinaryOp, lhs: usize) -> (res: Vec<Option<usize>>)
        requires
            self.wf(),
            lhs < self@.len(),
        ensures
            res@.len() == self@.len(),
            forall|rhs: int|
                0 <= rhs < self@.len() ==> index_of(#[trigger] res@[rhs]) == binary_cell(
                    self@,
                    op,
                    lhs as int,
                    rhs,
                ),
    {
        let n: usize = self.len();
        let mut row: Vec<Option<usize>> = Vec::new();
        let mut rhs: usize = 0;
        while rhs < n
            invariant
                self.wf(),
                n == self@.len(),
                lhs < n,
                rhs <= n,
                row@.len() == rhs,
                forall|k: int|
                    0 <= k < rhs ==> index_of(#[trigger] row@[k]) == binary_cell(
                        self@,
                        op,
                        lhs as int,
                        k,
                    ),
            decreases n - rhs,
        {
            let cell = self.binary_result(op, lhs, rhs);
            row.push(cell);
            rhs += 1;
        }
        row
    }

    /// The table of a binary operation: one row for each category of the
    /// left operand, one cell in it for each category of the right operand.
    pub fn binary_table(&self, op: BinaryOp) -> (res: Vec<Vec<Option<usize>>>)
        requires
            self.wf(),
        ensures
            res@.len() == self@.len(),
            forall|lhs: int| 0 <= lhs < self@.len() ==> (#[trigger] res@[lhs])@.len() == self@.len(),
            forall|lhs: int, rhs: int|
                0 <= lhs < self@.len() && 0 <= rhs < self@.len() ==> index_of(
                    #[trigger] res@[lhs]@[rhs],
                ) == binary_cell(self@, op, lhs, rhs),
    {
        let n: usize = self.len();
        let mut table: Vec<Vec<Option<usize>>> = Vec::new();
        let mut lhs: usize = 0;
        while lhs < n
            invariant
                self.wf(),
                n == self@.len(),
                lhs <= n,
                table@.len() == lhs,
                forall|i: int| 0 <= i < lhs ==> (#[trigger] table@[i])@.len() == n,
                forall|i: int, k: int|
                    0 <= i < lhs && 0 <= k < n ==> index_of(#[trigger] table@[i]@[k])
                        == binary_cell(self@, op, i, k),
            decreases n - lhs,
        {
            let row = self.binary_row(op, lhs);
            table.push(row);
            lhs += 1;
        }
        table
    }

    /// The tables of all unary operations, in the order of the registry: one
    /// row for each operation, one cell in it for each category.
    pub fn unary_matrix(&self) -> (res: Vec<Vec<Option<usize>>>)
        requires
            self.wf(),
        ensures
            res@.len() == all_unary_ops().len(),
            forall|k: int|
                0 <= k < all_unary_ops().len() ==> (#[trigger] res@[k])@.len() == self@.len(),
            forall|k: int, lhs: int|
                0 <= k < all_unary_ops().len() && 0 <= lhs < self@.len() ==> index_of(
                    #[trigger] res@[k]@[lhs],
                ) == unary_cell(self@, all_unary_ops()[k], lhs),
    {
        let ops = unary_ops();
        let n: usize = ops.len();
        let mut matrix: Vec<Vec<Option<usize>>> = Vec::new();
        let mut k: usize = 0;
        while k < n
            invariant
                self.wf(),
                ops@ == all_unary_ops(),
                n == ops@.len(),
                k <= n,
                matrix@.len() == k,
                forall|i: int| 0 <= i < k ==> (#[trigger] matrix@[i])@.len() == self@.len(),
                forall|i: int, lhs: int|
                    0 <= i < k && 0 <= lhs < self@.len() ==> index_of(#[trigger] matrix@[i]@[lhs])
                        == unary_cell(self@, ops@[i], lhs),
            decreases n - k,
        {
            let row = self.unary_row(ops[k]);
            matrix.push(row);
            k += 1;
        }
        matrix
    }

    /// The tables of all binary operations, in the order of the registry.
    pub fn binary_matrix(&self) -> (res: Vec<Vec<Vec<Option<usize>>>>)
        requires
            self.wf(),
        ensures
            res@.len() == all_binary_ops().len(),
            forall|k: int|
                0 <= k < all_binary_ops().len() ==> (#[trigger] res@[k])@.len() == self@.len(),
            forall|k: int, lhs: int|
                0 <= k < all_binary_ops().len() && 0 <= lhs < self@.len() ==> (
                #[trigger] res@[k]@[lhs])@.len() == self@.len(),
            forall|k: int, lhs: int, rhs: int|
                0 <= k < all_binary_ops().len() && 0 <= lhs < self@.len() && 0 <= rhs
                    < self@.len() ==> index_of(#[trigger] res@[k]@[lhs]@[rhs]) == binary_cell(
                    self@,
                    all_binary_ops()[k],
                    lhs,
                    rhs,
                ),
    {
        let ops = binary_ops();
        let n: usize = ops.len();
        let mut matrix: Vec<Vec<Vec<Option<usize>>>> = Vec::new();
        let mut k: usize = 0;
        while k < n
            invariant
                self.wf(),
                ops@ == all_binary_ops(),
                n == ops@.len(),
                k <= n,
                matrix@.len() == k,
                forall|i: int| 0 <= i < k ==> (#[trigger] matrix@[i])@.len() == self@.len(),
                forall|i: int, lhs: int|
                    0 <= i < k && 0 <= lhs < self@.len() ==> (#[trigger] matrix@[i]@[lhs])@.len()
                        == self@.len(),
                forall|i: int, lhs: int, rhs: int|
                    0 <= i < k && 0 <= lhs < self@.len() && 0 <= rhs < self@.len() ==> index_of(
                        #[trigger] matrix@[i]@[lhs]@[rhs],
                    ) == binary_cell(self@, ops@[i], lhs, rhs),
            decreases n - k,
        {
            let table = self.binary_table(ops[k]);
            matrix.push(table);
            k += 1;
        }
        matrix
    }

    /// What the values of a cell may be: what the category found accepts, or
    /// anything where none was found.
    pub fn result_specifications(&self, found: Option<usize>) -> (res: FloatSpecifications)
        requires
            found matches Some(i) ==> i < self@.len(),
        ensures
            res == published_specifications(self@, index_of(found)),
    {
        match found {
            Some(i) => self.get(i).s,
            None => FloatSpecifications {
                accept_nan: true,
                accept_inf: true,
                accept_zero: true,
                accept_positive: true,
                accept_negative: true,
            },
        }
    }

    /// The name under which a cell is published: the name of the category
    /// found, or the primitive float type where none was found.
    pub fn result_name(&self, found: Option<usize>) -> (res: &'static str)
        requires
            found matches Some(i) ==> i < self@.len(),
        ensures
            res == published_name(self@, self.width(), index_of(found)),
    {
        match found {
            Some(i) => self.get(i).name,
            None => self.width().float_type(),
        }
    }
}

} // verus!
