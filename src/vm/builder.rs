use vstd::prelude::*;
use crate::field::{Fq, p};
use crate::constraints::check::{cell, init_sel, step_sel, final_sel};
use crate::vm::state::{VMState, VMTrace};

verus! {

/// The selectors follow the trace layout: `control_init` is one on the first
/// row only, `control_final` on the last row only, and `control_step` on every
/// row that is neither; all of them are zero elsewhere.
pub open spec fn selectors_well_formed(t: VMTrace) -> bool {
    let n = t.states@.len();
    forall|i: int|
        0 <= i < n ==> {
            &&& #[trigger] init_sel(t, i) == (if i == 0 { 1int } else { 0int })
            &&& final_sel(t, i) == (if i == n - 1 { 1int } else { 0int })
            &&& step_sel(t, i) == (if 0 < i < n - 1 { 1int } else { 0int })
        }
}

/// The data columns follow the Fibonacci recurrence started from the two
/// inputs: row 0 holds `(in1, in2, in1 + in2)` and each later row holds
/// `(prev.c1, prev.c2, prev.c1 + prev.c2)`, all in the field.
pub open spec fn follows_recurrence(t: VMTrace, in1: int, in2: int) -> bool {
    let n = t.states@.len();
    &&& n >= 1 ==> cell(t, 0, 0) == in1 && cell(t, 0, 1) == in2
    &&& forall|i: int|
        0 <= i < n ==> #[trigger] cell(t, i, 2) == (cell(t, i, 0) + cell(t, i, 1)) % p()
    &&& forall|i: int|
        0 < i < n ==> #[trigger] cell(t, i, 0) == cell(t, i - 1, 1) && cell(t, i, 1) == cell(
            t,
            i - 1,
            2,
        )
}

/// Row `k` of `s` is the one that the recurrence gives for a trace of `n` rows.
spec fn built_row(s: Seq<VMState>, k: int, n: int, in1: int, in2: int) -> bool {
    &&& s[k].control_init.val() == (if k == 0 { 1int } else { 0int })
    &&& s[k].control_final.val() == (if k == n - 1 { 1int } else { 0int })
    &&& s[k].control_step.val() == (if 0 < k < n - 1 { 1int } else { 0int })
    &&& s[k].clock_cycle.val() == k % p()
    &&& s[k].data_columns@[2].val() == (s[k].data_columns@[0].val() + s[k].data_columns@[1].val()) % p()
    &&& k == 0 ==> s[k].data_columns@[0].val() == in1 && s[k].data_columns@[1].val() == in2
    &&& k > 0 ==> s[k].data_columns@[0].val() == s[k - 1].data_columns@[1].val()
        && s[k].data_columns@[1].val() == s[k - 1].data_columns@[2].val()
}

/// The selector value of a row: one where `on` holds, zero elsewhere.
fn flag(on: bool) -> (r: Fq)
    ensures
        r.val() == (if on { 1int } else { 0int }),
{
    if on {
        Fq::one()
    } else {
        Fq::zero()
    }
}

/// Builds the trace of `num_rows` rows that the Fibonacci recurrence produces
/// from the two inputs, with the selectors of the trace layout.
pub fn build_canonical_trace(num_rows: usize, input_one: Fq, input_two: Fq) -> (r: VMTrace)
    ensures
        r.states@.len() == num_rows,
        selectors_well_formed(r),
        follows_recurrence(r, input_one.val(), input_two.val()),
        forall|i: int| 0 <= i < num_rows ==> #[trigger] r.states@[i].clock_cycle.val() == i % p(),
{
    let mut states: Vec<VMState> = Vec::with_capacity(num_rows);
    let mut prev1 = input_one;
    let mut prev2 = input_two;
    let mut i: usize = 0;
    while i < num_rows
        invariant
            i <= num_rows,
            states@.len() == i,
            i == 0 ==> prev1 == input_one && prev2 == input_two,
            i > 0 ==> prev1.val() == states@[i - 1].data_columns@[1].val()
                && prev2.val() == states@[i - 1].data_columns@[2].val(),
            forall|k: int| 0 <= k < i ==> #[trigger] built_row(states@, k, num_rows as int, input_one.val(), input_two.val()),
        decreases num_rows - i,
    {
        let c0 = prev1;
        let c1 = prev2;
        let c2 = c0.add(c1);
        let state = VMState {
            clock_cycle: Fq::from_u64(i as u64),
            data_columns: [c0, c1, c2],
            control_init: flag(i == 0),
            control_step: flag(0 < i && i + 1 < num_rows),
            control_final: flag(i + 1 == num_rows),
        };
        assert(state.data_columns@ =~= seq![c0, c1, c2]);
        let ghost before = states@;
        states.push(state);
        assert forall|k: int| 0 <= k <= i implies #[trigger] built_row(states@, k, num_rows as int, input_one.val(), input_two.val()) by {
            assert(states@[k] == if k < i { before[k] } else { state });
            if k > 0 {
                assert(states@[k - 1] == before[k - 1]);
            }
            if k < i {
                assert(built_row(before, k, num_rows as int, input_one.val(), input_two.val()));
            }
        }
        prev1 = c1;
        prev2 = c2;
        i = i + 1;
    }
    let r = VMTrace { states };
    assert forall|k: int| 0 <= k < num_rows implies #[trigger] r.states@[k].clock_cycle.val() == k % p() by {
        assert(built_row(r.states@, k, num_rows as int, input_one.val(), input_two.val()));
    }
    assert forall|k: int| 0 <= k < num_rows implies #[trigger] cell(r, k, 2) == (cell(r, k, 0) + cell(r, k, 1)) % p() by {
        assert(built_row(r.states@, k, num_rows as int, input_one.val(), input_two.val()));
    }
    assert forall|k: int| 0 < k < num_rows implies #[trigger] cell(r, k, 0) == cell(r, k - 1, 1) && cell(r, k, 1) == cell(r, k - 1, 2) by {
        assert(built_row(r.states@, k, num_rows as int, input_one.val(), input_two.val()));
    }
    assert forall|k: int| 0 <= k < num_rows implies {
        &&& #[trigger] init_sel(r, k) == (if k == 0 { 1int } else { 0int })
        &&& final_sel(r, k) == (if k == num_rows - 1 { 1int } else { 0int })
        &&& step_sel(r, k) == (if 0 < k < num_rows - 1 { 1int } else { 0int })
    } by {
        assert(built_row(r.states@, k, num_rows as int, input_one.val(), input_two.val()));
    }
    if num_rows >= 1 {
        assert(built_row(r.states@, 0, num_rows as int, input_one.val(), input_two.val()));
    }
    r
}

} // verus!
