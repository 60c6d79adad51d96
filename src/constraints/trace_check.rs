use vstd::prelude::*;
use crate::field::Fq;
use crate::vm::state::VMTrace;
use crate::constraints::check::{
    fibonacci_residual, initial_one_residual, initial_two_residual, is_fibonacci,
    is_initial_state_column_one, is_initial_state_column_two, is_terminated_state,
    is_transition_data_one, is_transition_data_two, terminal_residual, transition_one_residual,
    transition_two_residual,
};

verus! {

/// Every constraint evaluated at every row of a trace: entry `i` of each
/// vector is ZERO iff that constraint holds at row `i`.
pub struct CheckVMTrace {
    pub is_fibonacci: Vec<Fq>,
    pub is_transition_data_one: Vec<Fq>,
    pub is_transition_data_two: Vec<Fq>,
    pub is_terminated_state: Vec<Fq>,
    pub is_initial_state_column_one: Vec<Fq>,
    pub is_initial_state_column_two: Vec<Fq>,
}

impl CheckVMTrace {
    /// The six vectors hold, row by row, the constraint values of `t` checked
    /// against the public output and inputs.
    pub open spec fn evaluates(self, t: VMTrace, output: int, input_one: int, input_two: int) -> bool {
        let n = t.states@.len();
        &&& self.is_fibonacci@.len() == n
        &&& self.is_transition_data_one@.len() == n
        &&& self.is_transition_data_two@.len() == n
        &&& self.is_terminated_state@.len() == n
        &&& self.is_initial_state_column_one@.len() == n
        &&& self.is_initial_state_column_two@.len() == n
        &&& forall|i: int|
            0 <= i < n ==> {
                &&& #[trigger] self.is_fibonacci@[i].val() == fibonacci_residual(t, i)
                &&& self.is_transition_data_one@[i].val() == transition_one_residual(t, i)
                &&& self.is_transition_data_two@[i].val() == transition_two_residual(t, i)
                &&& self.is_terminated_state@[i].val() == terminal_residual(t, i, output)
                &&& self.is_initial_state_column_one@[i].val() == initial_one_residual(t, i, input_one)
                &&& self.is_initial_state_column_two@[i].val() == initial_two_residual(t, i, input_two)
            }
    }

    /// Evaluates every constraint at every row of the trace.
    pub fn new(execution_trace: &VMTrace, output: Fq, input_one: Fq, input_two: Fq) -> (r: Self)
        ensures
            r.evaluates(*execution_trace, output.val(), input_one.val(), input_two.val()),
    {
        let n = execution_trace.states.len();
        let mut r = CheckVMTrace {
            is_fibonacci: Vec::with_capacity(n),
            is_transition_data_one: Vec::with_capacity(n),
            is_transition_data_two: Vec::with_capacity(n),
            is_terminated_state: Vec::with_capacity(n),
            is_initial_state_column_one: Vec::with_capacity(n),
            is_initial_state_column_two: Vec::with_capacity(n),
        };
        let mut i: usize = 0;
        while i < n
            invariant
                n == execution_trace.states@.len(),
                i <= n,
                r.is_fibonacci@.len() == i,
                r.is_transition_data_one@.len() == i,
                r.is_transition_data_two@.len() == i,
                r.is_terminated_state@.len() == i,
                r.is_initial_state_column_one@.len() == i,
                r.is_initial_state_column_two@.len() == i,
                forall|k: int|
                    0 <= k < i ==> {
                        &&& #[trigger] r.is_fibonacci@[k].val() == fibonacci_residual(*execution_trace, k)
                        &&& r.is_transition_data_one@[k].val() == transition_one_residual(*execution_trace, k)
                        &&& r.is_transition_data_two@[k].val() == transition_two_residual(*execution_trace, k)
                        &&& r.is_terminated_state@[k].val() == terminal_residual(*execution_trace, k, output.val())
                        &&& r.is_initial_state_column_one@[k].val() == initial_one_residual(*execution_trace, k, input_one.val())
                        &&& r.is_initial_state_column_two@[k].val() == initial_two_residual(*execution_trace, k, input_two.val())
                    },
            decreases n - i,
        {
            r.is_fibonacci.push(is_fibonacci(i, execution_trace));
            r.is_transition_data_one.push(is_transition_data_one(i, execution_trace));
            r.is_transition_data_two.push(is_transition_data_two(i, execution_trace));
            r.is_terminated_state.push(is_terminated_state(i, output, execution_trace));
            r.is_initial_state_column_one.push(is_initial_state_column_one(i, input_one, execution_trace));
            r.is_initial_state_column_two.push(is_initial_state_column_two(i, input_two, execution_trace));
            i = i + 1;
        }
        r
    }
}

} // verus!
