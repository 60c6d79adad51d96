use vstd::prelude::*;
use vstd::arithmetic::div_mod::{lemma_sub_mod_noop, lemma_mod_bound, lemma_small_mod, lemma_mod_twice};
use crate::field::p;
use crate::vm::state::VMTrace;
use crate::constraints::trace_check::CheckVMTrace;
use crate::vm::builder::{selectors_well_formed, follows_recurrence};
use crate::constraints::check::{
    cell, init_sel, step_sel, final_sel, fibonacci_residual, initial_one_residual,
    initial_two_residual, terminal_residual, transition_one_residual, transition_two_residual,
};

verus! {

/// Every constraint vanishes at row `i` of `t`.
pub open spec fn constraints_hold_at(t: VMTrace, i: int, output: int, in1: int, in2: int) -> bool {
    &&& fibonacci_residual(t, i) == 0
    &&& transition_one_residual(t, i) == 0
    &&& transition_two_residual(t, i) == 0
    &&& terminal_residual(t, i, output) == 0
    &&& initial_one_residual(t, i, in1) == 0
    &&& initial_two_residual(t, i, in2) == 0
}

/// A difference vanishes in the field iff its two sides are congruent.
proof fn lemma_difference(x: int, y: int)
    ensures
        ((x - y) % p() == 0) == (x % p() == y % p()),
{
    lemma_sub_mod_noop(x, y, p());
    lemma_mod_bound(x, p());
    lemma_mod_bound(y, p());
    let d = x % p() - y % p();
    if d > 0 {
        lemma_small_mod(d as nat, p() as nat);
    } else if d < 0 {
        lemma_small_mod((d + p()) as nat, p() as nat);
        assert((d + p()) % p() == d % p());
    }
}

/// Adding the same term keeps two values congruent, or not congruent.
proof fn lemma_shift(a: int, a2: int, b: int)
    ensures
        ((a2 + b) % p() == (a + b) % p()) == (a2 % p() == a % p()),
{
    lemma_difference(a2 + b, a + b);
    lemma_difference(a2, a);
    assert((a2 + b) - (a + b) == a2 - a);
}

/// A selector of value 0 or 1 masks a difference or passes it on unchanged.
proof fn lemma_gate(s: int, x: int, y: int)
    requires
        s == 0 || s == 1,
    ensures
        ((s * (x - y)) % p() == 0) == (s == 0 || x % p() == y % p()),
{
    lemma_difference(x, y);
    if s == 1 {
        assert(s * (x - y) == x - y);
    } else {
        assert(s * (x - y) == 0);
    }
}

/// A trace that the Fibonacci recurrence produced from two inputs, with the
/// selectors of the trace layout, satisfies every constraint at every row,
/// when checked against those inputs and its own last value of column 2.
pub proof fn lemma_canonical_trace_satisfies_constraints(t: VMTrace, in1: int, in2: int, output: int)
    requires
        t.states@.len() >= 1,
        selectors_well_formed(t),
        follows_recurrence(t, in1, in2),
        output == cell(t, t.states@.len() - 1, 2),
    ensures
        forall|i: int|
            0 <= i < t.states@.len() ==> #[trigger] constraints_hold_at(t, i, output, in1, in2),
{
    let n = t.states@.len();
    assert forall|i: int| 0 <= i < n implies constraints_hold_at(t, i, output, in1, in2) by {
        assert(init_sel(t, i) == (if i == 0 { 1int } else { 0int }));
        assert(cell(t, i, 2) == (cell(t, i, 0) + cell(t, i, 1)) % p());
        lemma_difference(cell(t, i, 2), cell(t, i, 0) + cell(t, i, 1));
        if i > 0 {
            assert(cell(t, i, 0) == cell(t, i - 1, 1) && cell(t, i, 1) == cell(t, i - 1, 2));
            lemma_gate(step_sel(t, i), cell(t, i, 0), cell(t, i - 1, 1));
            lemma_gate(step_sel(t, i), cell(t, i, 1), cell(t, i - 1, 2));
        }
        lemma_gate(final_sel(t, i), cell(t, i, 2), output);
        lemma_gate(init_sel(t, i), cell(t, i, 0), in1);
        lemma_gate(init_sel(t, i), cell(t, i, 1), in2);
    }
}

/// The trace checker run on such a trace returns six vectors that are ZERO
/// at every row.
pub proof fn lemma_checker_accepts_canonical_trace(chk: CheckVMTrace, t: VMTrace, in1: int, in2: int, output: int)
    requires
        t.states@.len() >= 1,
        selectors_well_formed(t),
        follows_recurrence(t, in1, in2),
        output == cell(t, t.states@.len() - 1, 2),
        chk.evaluates(t, output, in1, in2),
    ensures
        forall|i: int|
            0 <= i < t.states@.len() ==> {
                &&& #[trigger] chk.is_fibonacci@[i].val() == 0
                &&& chk.is_transition_data_one@[i].val() == 0
                &&& chk.is_transition_data_two@[i].val() == 0
                &&& chk.is_terminated_state@[i].val() == 0
                &&& chk.is_initial_state_column_one@[i].val() == 0
                &&& chk.is_initial_state_column_two@[i].val() == 0
            },
{
    lemma_canonical_trace_satisfies_constraints(t, in1, in2, output);
    assert forall|i: int| 0 <= i < t.states@.len() implies {
        &&& #[trigger] chk.is_fibonacci@[i].val() == 0
        &&& chk.is_transition_data_one@[i].val() == 0
        &&& chk.is_transition_data_two@[i].val() == 0
        &&& chk.is_terminated_state@[i].val() == 0
        &&& chk.is_initial_state_column_one@[i].val() == 0
        &&& chk.is_initial_state_column_two@[i].val() == 0
    } by {
        assert(constraints_hold_at(t, i, output, in1, in2));
    }
}

/// Where a selector is zero at a row, the constraints that it gates vanish
/// there, whatever the data columns and the public values hold.
pub proof fn lemma_zero_selector_masks(t: VMTrace, row: int, output: int, input_one: int, input_two: int)
    requires
        0 <= row < t.states@.len(),
    ensures
        step_sel(t, row) == 0 ==> transition_one_residual(t, row) == 0
            && transition_two_residual(t, row) == 0,
        final_sel(t, row) == 0 ==> terminal_residual(t, row, output) == 0,
        init_sel(t, row) == 0 ==> initial_one_residual(t, row, input_one) == 0
            && initial_two_residual(t, row, input_two) == 0,
{
    if row > 0 && step_sel(t, row) == 0 {
        lemma_gate(0, cell(t, row, 0), cell(t, row - 1, 1));
        lemma_gate(0, cell(t, row, 1), cell(t, row - 1, 2));
    }
    if final_sel(t, row) == 0 {
        lemma_gate(0, cell(t, row, 2), output);
    }
    if init_sel(t, row) == 0 {
        lemma_gate(0, cell(t, row, 0), input_one);
        lemma_gate(0, cell(t, row, 1), input_two);
    }
}

/// `t2` is `t` with the data column `c` of row `r` given another value in
/// the field, and every other data value and every selector left as it was.
pub open spec fn single_corruption(t: VMTrace, t2: VMTrace, r: int, c: int) -> bool {
    let n = t.states@.len();
    &&& t2.states@.len() == n
    &&& 0 <= r < n
    &&& 0 <= c < 3
    &&& cell(t2, r, c) % p() != cell(t, r, c) % p()
    &&& forall|i: int, j: int|
        0 <= i < n && 0 <= j < 3 && !(i == r && j == c) ==> #[trigger] cell(t2, i, j) == cell(t, i, j)
    &&& forall|i: int|
        0 <= i < n ==> {
            &&& #[trigger] init_sel(t2, i) == init_sel(t, i)
            &&& step_sel(t2, i) == step_sel(t, i)
            &&& final_sel(t2, i) == final_sel(t, i)
        }
}

/// At row `i`, a constraint of `t2` is nonzero iff it reads the changed value
/// `(r, c)` and its selector is active at `i`.
pub open spec fn corruption_isolated_at(
    t: VMTrace,
    t2: VMTrace,
    i: int,
    r: int,
    c: int,
    in1: int,
    in2: int,
    output: int,
) -> bool {
    &&& (fibonacci_residual(t2, i) != 0) == (i == r)
    &&& (transition_one_residual(t2, i) != 0) == (step_sel(t, i) == 1 && ((i == r && c == 0) || (i
        == r + 1 && c == 1)))
    &&& (transition_two_residual(t2, i) != 0) == (step_sel(t, i) == 1 && ((i == r && c == 1) || (i
        == r + 1 && c == 2)))
    &&& (terminal_residual(t2, i, output) != 0) == (final_sel(t, i) == 1 && i == r && c == 2)
    &&& (initial_one_residual(t2, i, in1) != 0) == (init_sel(t, i) == 1 && i == r && c == 0)
    &&& (initial_two_residual(t2, i, in2) != 0) == (init_sel(t, i) == 1 && i == r && c == 1)
}

/// Changing one data value of a valid trace makes exactly those constraints
/// nonzero that read that value at a row where their selector is active: the
/// Fibonacci rule at its row; a transition rule at its row and at the row
/// after, by the column each compares; the terminal and initial rules at its
/// row, by their column. Every other entry stays ZERO.
pub proof fn lemma_single_corruption_isolated(
    t: VMTrace,
    t2: VMTrace,
    r: int,
    c: int,
    in1: int,
    in2: int,
    output: int,
)
    requires
        t.states@.len() >= 1,
        selectors_well_formed(t),
        follows_recurrence(t, in1, in2),
        output == cell(t, t.states@.len() - 1, 2),
        single_corruption(t, t2, r, c),
    ensures
        forall|i: int|
            0 <= i < t.states@.len() ==> #[trigger] corruption_isolated_at(t, t2, i, r, c, in1, in2, output),
{
    let n = t.states@.len();
    assert forall|i: int| 0 <= i < n implies #[trigger] corruption_isolated_at(t, t2, i, r, c, in1, in2, output) by {
        assert(init_sel(t, i) == (if i == 0 { 1int } else { 0int }));
        assert(init_sel(t2, i) == init_sel(t, i));
        assert(cell(t, i, 2) == (cell(t, i, 0) + cell(t, i, 1)) % p());
        assert(cell(t2, i, 0) == cell(t, i, 0) || (i == r && c == 0));
        assert(cell(t2, i, 1) == cell(t, i, 1) || (i == r && c == 1));
        assert(cell(t2, i, 2) == cell(t, i, 2) || (i == r && c == 2));
        lemma_difference(cell(t2, i, 2), cell(t2, i, 0) + cell(t2, i, 1));
        lemma_mod_twice(cell(t, i, 0) + cell(t, i, 1), p());
        lemma_shift(cell(t, i, 0), cell(t2, i, 0), cell(t, i, 1));
        lemma_shift(cell(t, i, 1), cell(t2, i, 1), cell(t, i, 0));
        assert(cell(t, i, 1) + cell(t2, i, 0) == cell(t2, i, 0) + cell(t, i, 1));
        assert((fibonacci_residual(t2, i) != 0) == (i == r));
        if i > 0 {
            assert(cell(t, i, 0) == cell(t, i - 1, 1) && cell(t, i, 1) == cell(t, i - 1, 2));
            assert(cell(t2, i - 1, 1) == cell(t, i - 1, 1) || (i - 1 == r && c == 1));
            assert(cell(t2, i - 1, 2) == cell(t, i - 1, 2) || (i - 1 == r && c == 2));
            lemma_gate(step_sel(t, i), cell(t2, i, 0), cell(t2, i - 1, 1));
            lemma_gate(step_sel(t, i), cell(t2, i, 1), cell(t2, i - 1, 2));
        }
        assert((transition_one_residual(t2, i) != 0) == (step_sel(t, i) == 1 && ((i == r
            && c == 0) || (i == r + 1 && c == 1))));
        assert((transition_two_residual(t2, i) != 0) == (step_sel(t, i) == 1 && ((i == r
            && c == 1) || (i == r + 1 && c == 2))));
        lemma_gate(final_sel(t, i), cell(t2, i, 2), output);
        assert((terminal_residual(t2, i, output) != 0) == (final_sel(t, i) == 1 && i == r && c
            == 2));
        lemma_gate(init_sel(t, i), cell(t2, i, 0), in1);
        lemma_gate(init_sel(t, i), cell(t2, i, 1), in2);
    }
}

} // verus!
