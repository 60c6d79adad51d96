use vstd::prelude::*;
use vstd::arithmetic::div_mod::{lemma_sub_mod_noop_right, lemma_mul_mod_noop_right};
use crate::field::{Fq, p};
use crate::vm::state::VMTrace;

verus! {

/// Value of data column `c` at row `row`.
pub open spec fn cell(t: VMTrace, row: int, c: int) -> int {
    t.states@[row].data_columns@[c].val()
}

/// Value of the initial-row selector at `row`.
pub open spec fn init_sel(t: VMTrace, row: int) -> int {
    t.states@[row].control_init.val()
}

/// Value of the interior-row selector at `row`.
pub open spec fn step_sel(t: VMTrace, row: int) -> int {
    t.states@[row].control_step.val()
}

/// Value of the last-row selector at `row`.
pub open spec fn final_sel(t: VMTrace, row: int) -> int {
    t.states@[row].control_final.val()
}

/// `c2 - (c0 + c1)` at `row`: zero iff the row follows the Fibonacci rule.
pub open spec fn fibonacci_residual(t: VMTrace, row: int) -> int {
    (cell(t, row, 2) - (cell(t, row, 0) + cell(t, row, 1))) % p()
}

/// `step * (c0 - prev.c1)`, and zero on the first row.
pub open spec fn transition_one_residual(t: VMTrace, row: int) -> int {
    if row == 0 {
        0
    } else {
        (step_sel(t, row) * (cell(t, row, 0) - cell(t, row - 1, 1))) % p()
    }
}

/// `step * (c1 - prev.c2)`, and zero on the first row.
pub open spec fn transition_two_residual(t: VMTrace, row: int) -> int {
    if row == 0 {
        0
    } else {
        (step_sel(t, row) * (cell(t, row, 1) - cell(t, row - 1, 2))) % p()
    }
}

/// `final * (c2 - output)`.
pub open spec fn terminal_residual(t: VMTrace, row: int, output: int) -> int {
    (final_sel(t, row) * (cell(t, row, 2) - output)) % p()
}

/// `init * (c0 - input)`.
pub open spec fn initial_one_residual(t: VMTrace, row: int, input: int) -> int {
    (init_sel(t, row) * (cell(t, row, 0) - input)) % p()
}

/// `init * (c1 - input)`.
pub open spec fn initial_two_residual(t: VMTrace, row: int, input: int) -> int {
    (init_sel(t, row) * (cell(t, row, 1) - input)) % p()
}

/// `s * (x - y)` in the field.
fn gated_difference(s: Fq, x: Fq, y: Fq) -> (r: Fq)
    ensures
        r.val() == (s.val() * (x.val() - y.val())) % p(),
{
    let d = x.sub(y);
    proof {
        lemma_mul_mod_noop_right(s.val(), x.val() - y.val(), p());
    }
    s.mul(d)
}

/// Returns ZERO iff the Fibonacci rule holds at `row`.
pub fn is_fibonacci(row: usize, trace: &VMTrace) -> (r: Fq)
    requires
        row < trace.states@.len(),
    ensures
        r.val() == fibonacci_residual(*trace, row as int),
{
    let cols = trace.states[row].data_columns;
    let s = cols[0].add(cols[1]);
    proof {
        lemma_sub_mod_noop_right(cols@[2].val(), cols@[0].val() + cols@[1].val(), p());
    }
    cols[2].sub(s)
}

/// Returns ZERO iff column 0 at `row` repeats column 1 of the row before,
/// or the step selector is zero, or `row` is the first row.
pub fn is_transition_data_one(row: usize, trace: &VMTrace) -> (r: Fq)
    requires
        row < trace.states@.len(),
    ensures
        r.val() == transition_one_residual(*trace, row as int),
{
    if row == 0 {
        return Fq::zero();
    }
    let cur = trace.states[row];
    let prev = trace.states[row - 1];
    gated_difference(cur.control_step, cur.data_columns[0], prev.data_columns[1])
}

/// Returns ZERO iff column 1 at `row` repeats column 2 of the row before,
/// or the step selector is zero, or `row` is the first row.
pub fn is_transition_data_two(row: usize, trace: &VMTrace) -> (r: Fq)
    requires
        row < trace.states@.len(),
    ensures
        r.val() == transition_two_residual(*trace, row as int),
{
    if row == 0 {
        return Fq::zero();
    }
    let cur = trace.states[row];
    let prev = trace.states[row - 1];
    gated_difference(cur.control_step, cur.data_columns[1], prev.data_columns[2])
}

/// Returns ZERO iff column 2 at `row` equals the public output, or the final
/// selector is zero.
pub fn is_terminated_state(row: usize, output: Fq, trace: &VMTrace) -> (r: Fq)
    requires
        row < trace.states@.len(),
    ensures
        r.val() == terminal_residual(*trace, row as int, output.val()),
{
    let cur = trace.states[row];
    gated_difference(cur.control_final, cur.data_columns[2], output)
}

/// Returns ZERO iff column 0 at `row` equals the first public input, or the
/// initial selector is zero.
pub fn is_initial_state_column_one(row: usize, input: Fq, trace: &VMTrace) -> (r: Fq)
    requires
        row < trace.states@.len(),
    ensures
        r.val() == initial_one_residual(*trace, row as int, input.val()),
{
    let cur = trace.states[row];
    gated_difference(cur.control_init, cur.data_columns[0], input)
}

/// Returns ZERO iff column 1 at `row` equals the second public input, or the
/// initial selector is zero.
pub fn is_initial_state_column_two(row: usize, input: Fq, trace: &VMTrace) -> (r: Fq)
    requires
        row < trace.states@.len(),
    ensures
        r.val() == initial_two_residual(*trace, row as int, input.val()),
{
    let cur = trace.states[row];
    gated_difference(cur.control_init, cur.data_columns[1], input)
}

} // verus!
