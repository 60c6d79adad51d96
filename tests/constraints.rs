use zkvm_air::constraints::check::{
    is_fibonacci, is_initial_state_column_one, is_initial_state_column_two, is_terminated_state,
    is_transition_data_one, is_transition_data_two,
};
use zkvm_air::constraints::trace_check::CheckVMTrace;
use zkvm_air::field::Fq;
use zkvm_air::vm::builder::build_canonical_trace;
use zkvm_air::vm::constants::{NUM_DATA_COLUMNS, NUM_ROWS};
use zkvm_air::vm::state::VMTrace;

fn canonical() -> VMTrace {
    build_canonical_trace(NUM_ROWS, Fq::from(1u64), Fq::from(1u64))
}

fn all_zero(v: &[Fq]) -> bool {
    v.iter().all(|x| x.is_zero())
}

#[test]
fn constraints_hold_on_canonical_trace() {
    let zero = Fq::zero();
    let trace = canonical();

    // Row 0: only initial-state constraints active
    assert_eq!(is_initial_state_column_one(0, Fq::from(1u64), &trace), zero);
    assert_eq!(is_initial_state_column_two(0, Fq::from(1u64), &trace), zero);
    assert_eq!(is_transition_data_one(0, &trace), zero);
    assert_eq!(is_transition_data_two(0, &trace), zero);

    // Middle rows where control_step = 1
    for row in 1..(NUM_ROWS - 1) {
        assert_eq!(is_fibonacci(row, &trace), zero);
        assert_eq!(is_transition_data_one(row, &trace), zero);
        assert_eq!(is_transition_data_two(row, &trace), zero);
    }

    // Final row: only final constraint active
    let last = NUM_ROWS - 1;
    assert_eq!(is_fibonacci(last, &trace), zero);
    assert_eq!(
        is_terminated_state(last, trace.states[last].data_columns[2], &trace),
        zero
    );
}

#[test]
fn violations_with_controls_on_are_detected() {
    let zero = Fq::zero();
    let one = Fq::from(1u64);
    let mut trace = canonical();

    // Break Fibonacci at some middle row
    let row = 3;
    trace.states[row].data_columns[2] = trace.states[row].data_columns[2].add(one);
    assert_ne!(is_fibonacci(row, &trace), zero);

    // Restore Fibonacci, then break transition for data column 0
    trace = canonical();
    let row = 2;
    trace.states[row].data_columns[0] = trace.states[row].data_columns[0].add(one);
    trace.states[row].control_step = one;
    assert_ne!(is_transition_data_one(row, &trace), zero);

    // Break initial state while control_init = 1
    trace = canonical();
    trace.states[0].data_columns[0] = trace.states[0].data_columns[0].add(one);
    assert_ne!(is_initial_state_column_one(0, one, &trace), zero);

    // Break final state while control_final = 1
    trace = canonical();
    let last = NUM_ROWS - 1;
    trace.states[last].data_columns[2] = trace.states[last].data_columns[2].add(one);
    assert_ne!(
        is_terminated_state(last, trace.states[last].data_columns[2].sub(one), &trace),
        zero
    );
}

#[test]
fn violations_with_controls_off_are_ignored() {
    let zero = Fq::zero();
    let one = Fq::from(1u64);
    let mut trace = canonical();

    // Middle row: break transitions but turn control_step off
    let row = 2;
    trace.states[row].data_columns[0] = trace.states[row].data_columns[0].add(one);
    trace.states[row].data_columns[1] = trace.states[row].data_columns[1].add(one);
    trace.states[row].control_step = zero;
    assert_eq!(is_transition_data_one(row, &trace), zero);
    assert_eq!(is_transition_data_two(row, &trace), zero);

    // Initial row: wrong values but control_init off
    trace.states[0].data_columns[0] = trace.states[0].data_columns[0].add(Fq::from(5u64));
    trace.states[0].data_columns[1] = trace.states[0].data_columns[1].add(Fq::from(7u64));
    trace.states[0].control_init = zero;
    assert_eq!(is_initial_state_column_one(0, one, &trace), zero);
    assert_eq!(is_initial_state_column_two(0, one, &trace), zero);

    // Final row: wrong value but control_final off
    let last = NUM_ROWS - 1;
    trace.states[last].data_columns[2] = trace.states[last].data_columns[2].add(Fq::from(3u64));
    trace.states[last].control_final = zero;
    assert_eq!(is_terminated_state(last, Fq::from(0u64), &trace), zero);
}

#[test]
fn check_vmtrace_new_succeeds_on_canonical_trace() {
    let zero = Fq::zero();
    let input_one = Fq::from(1u64);
    let input_two = Fq::from(1u64);
    let output = Fq::from(55u64);

    let trace = build_canonical_trace(NUM_ROWS, input_one, input_two);
    let checked = CheckVMTrace::new(&trace, output, input_one, input_two);

    // All rows satisfy Fibonacci
    for row in 0..NUM_ROWS {
        assert_eq!(checked.is_fibonacci[row], zero);
    }

    // Initial row: initial state constraints active
    assert_eq!(checked.is_initial_state_column_one[0], zero);
    assert_eq!(checked.is_initial_state_column_two[0], zero);

    // Middle rows: transitions active
    for row in 1..(NUM_ROWS - 1) {
        assert_eq!(checked.is_transition_data_one[row], zero);
        assert_eq!(checked.is_transition_data_two[row], zero);
    }

    // Final row: termination constraint active
    let last = NUM_ROWS - 1;
    assert_eq!(checked.is_terminated_state[last], zero);

    // Sanity: arrays lengths align with NUM_ROWS and data columns count
    assert_eq!(trace.states.len(), NUM_ROWS);
    assert_eq!(trace.states[0].data_columns.len(), NUM_DATA_COLUMNS);
}

#[test]
fn single_constraint_failure_isolated_in_check_vmtrace() {
    let zero = Fq::zero();
    let input_one = Fq::from(1u64);
    let input_two = Fq::from(1u64);
    let output = Fq::from(55u64);

    let mut trace = build_canonical_trace(NUM_ROWS, input_one, input_two);

    // Introduce a single Fibonacci violation at row 3
    let row = 3;
    trace.states[row].data_columns[2] = trace.states[row].data_columns[2].add(Fq::from(1u64));

    let checked = CheckVMTrace::new(&trace, output, input_one, input_two);

    for i in 0..NUM_ROWS {
        if i == row {
            assert_ne!(checked.is_fibonacci[i], zero);
        } else {
            assert_eq!(checked.is_fibonacci[i], zero);
        }

        // Other constraints should still hold everywhere
        if i > 0 && i < NUM_ROWS - 1 && i != row + 1 {
            assert_eq!(checked.is_transition_data_one[i], zero);
            assert_eq!(checked.is_transition_data_two[i], zero);
        }
    }
}

#[test]
fn canonical_trace_with_unit_inputs_checks_clean() {
    let one = Fq::from(1u64);
    let trace = canonical();
    let last = NUM_ROWS - 1;
    let expected: [[u64; 3]; 8] = [
        [1, 1, 2],
        [1, 2, 3],
        [2, 3, 5],
        [3, 5, 8],
        [5, 8, 13],
        [8, 13, 21],
        [13, 21, 34],
        [21, 34, 55],
    ];
    for (i, row) in expected.iter().enumerate() {
        for c in 0..3 {
            assert_eq!(trace.states[i].data_columns[c].value(), row[c]);
        }
        assert_eq!(trace.states[i].clock_cycle.value(), i as u64);
        assert_eq!(trace.states[i].control_init.value(), if i == 0 { 1 } else { 0 });
        assert_eq!(trace.states[i].control_final.value(), if i == last { 1 } else { 0 });
        assert_eq!(trace.states[i].control_step.value(), if i > 0 && i < last { 1 } else { 0 });
    }
    // Row 7 starts with 21; the terminal rule compares column 2, which is 55.
    assert_eq!(trace.states[last].data_columns[0].value(), 21);
    let output = trace.states[last].data_columns[2];
    let checked = CheckVMTrace::new(&trace, output, one, one);
    assert!(all_zero(&checked.is_fibonacci));
    assert!(all_zero(&checked.is_transition_data_one));
    assert!(all_zero(&checked.is_transition_data_two));
    assert!(all_zero(&checked.is_terminated_state));
    assert!(all_zero(&checked.is_initial_state_column_one));
    assert!(all_zero(&checked.is_initial_state_column_two));
    assert_eq!(checked.is_fibonacci.len(), NUM_ROWS);
}

#[test]
fn canonical_trace_with_other_inputs_checks_clean() {
    let a = Fq::from(3u64);
    let b = Fq::from(90u64);
    let trace = build_canonical_trace(NUM_ROWS, a, b);
    let output = trace.states[NUM_ROWS - 1].data_columns[2];
    let checked = CheckVMTrace::new(&trace, output, a, b);
    assert!(all_zero(&checked.is_fibonacci));
    assert!(all_zero(&checked.is_transition_data_one));
    assert!(all_zero(&checked.is_transition_data_two));
    assert!(all_zero(&checked.is_terminated_state));
    assert!(all_zero(&checked.is_initial_state_column_one));
    assert!(all_zero(&checked.is_initial_state_column_two));
    // A wrong output is caught at the last row only.
    let wrong = CheckVMTrace::new(&trace, output.add(Fq::one()), a, b);
    for i in 0..NUM_ROWS {
        assert_eq!(wrong.is_terminated_state[i].is_zero(), i != NUM_ROWS - 1);
    }
    // Wrong inputs are caught at the first row only.
    let wrong = CheckVMTrace::new(&trace, output, b, a);
    for i in 0..NUM_ROWS {
        assert_eq!(wrong.is_initial_state_column_one[i].is_zero(), i != 0);
        assert_eq!(wrong.is_initial_state_column_two[i].is_zero(), i != 0);
    }
}

#[test]
fn fibonacci_break_at_row_three_only_flags_row_three() {
    let trace0 = canonical();
    let mut trace = trace0.clone();
    trace.states[3].data_columns[2] = trace.states[3].data_columns[2].add(Fq::one());
    let output = trace0.states[NUM_ROWS - 1].data_columns[2];
    let checked = CheckVMTrace::new(&trace, output, Fq::one(), Fq::one());
    for i in 0..NUM_ROWS {
        assert_eq!(checked.is_fibonacci[i].is_zero(), i != 3);
        // Column 2 of row 3 feeds the second transition rule of row 4.
        assert_eq!(checked.is_transition_data_two[i].is_zero(), i != 4);
        assert!(checked.is_transition_data_one[i].is_zero());
        assert!(checked.is_terminated_state[i].is_zero());
    }
}

#[test]
fn single_corruption_of_each_column_is_isolated() {
    let trace0 = canonical();
    let output = trace0.states[NUM_ROWS - 1].data_columns[2];
    let one = Fq::one();
    // Column 1 at row 0: Fibonacci at row 0, the initial rule for column 1 at
    // row 0, and the first transition rule at row 1.
    let mut t = trace0.clone();
    t.states[0].data_columns[1] = t.states[0].data_columns[1].add(one);
    let ch = CheckVMTrace::new(&t, output, one, one);
    for i in 0..NUM_ROWS {
        assert_eq!(ch.is_fibonacci[i].is_zero(), i != 0);
        assert_eq!(ch.is_initial_state_column_two[i].is_zero(), i != 0);
        assert!(ch.is_initial_state_column_one[i].is_zero());
        assert_eq!(ch.is_transition_data_one[i].is_zero(), i != 1);
        assert!(ch.is_transition_data_two[i].is_zero());
        assert!(ch.is_terminated_state[i].is_zero());
    }
    // Column 2 at the last row: Fibonacci and the terminal rule there.
    let mut t = trace0.clone();
    let last = NUM_ROWS - 1;
    t.states[last].data_columns[2] = t.states[last].data_columns[2].add(Fq::from(40u64));
    let ch = CheckVMTrace::new(&t, output, one, one);
    for i in 0..NUM_ROWS {
        assert_eq!(ch.is_fibonacci[i].is_zero(), i != last);
        assert_eq!(ch.is_terminated_state[i].is_zero(), i != last);
        assert!(ch.is_transition_data_one[i].is_zero());
        assert!(ch.is_transition_data_two[i].is_zero());
    }
}

#[test]
fn masked_final_row_ignores_stale_output() {
    let mut trace = canonical();
    let last = NUM_ROWS - 1;
    let output = trace.states[last].data_columns[2];
    trace.states[last].control_final = Fq::zero();
    trace.states[last].data_columns[2] = trace.states[last].data_columns[2].add(Fq::from(9u64));
    let checked = CheckVMTrace::new(&trace, output, Fq::one(), Fq::one());
    assert!(checked.is_terminated_state[last].is_zero());
    assert!(all_zero(&checked.is_terminated_state));
}

#[test]
fn masked_final_row_with_original_output() {
    let mut trace = canonical();
    let last = NUM_ROWS - 1;
    trace.states[last].control_final = Fq::zero();
    assert!(is_terminated_state(last, Fq::from(21u64), &trace).is_zero());
    assert!(is_terminated_state(last, Fq::from(55u64), &trace).is_zero());
}

#[test]
fn transition_rules_are_zero_on_first_row() {
    let mut trace = canonical();
    trace.states[0].control_step = Fq::one();
    trace.states[0].data_columns[0] = Fq::from(50u64);
    assert!(is_transition_data_one(0, &trace).is_zero());
    assert!(is_transition_data_two(0, &trace).is_zero());
}

#[test]
fn constraint_values_are_exact() {
    let mut trace = canonical();
    // Row 2 is (2, 3, 5); make column 2 hold 9: 9 - (2 + 3) = 4.
    trace.states[2].data_columns[2] = Fq::from(9u64);
    assert_eq!(is_fibonacci(2, &trace).value(), 4);
    // Row 3 column 1 is 5; row 2 column 2 is now 9: 1 * (5 - 9) = -4 = 93.
    assert_eq!(is_transition_data_two(3, &trace).value(), 93);
    // Terminal rule at the last row against output 50: 55 - 50 = 5.
    assert_eq!(is_terminated_state(NUM_ROWS - 1, Fq::from(50u64), &trace).value(), 5);
    // Initial rules against inputs 4 and 10: 1 - 4 = 94 and 1 - 10 = 88.
    assert_eq!(is_initial_state_column_one(0, Fq::from(4u64), &trace).value(), 94);
    assert_eq!(is_initial_state_column_two(0, Fq::from(10u64), &trace).value(), 88);
}

#[test]
fn empty_and_single_row_traces() {
    let empty = build_canonical_trace(0, Fq::one(), Fq::one());
    assert!(empty.states.is_empty());
    let checked = CheckVMTrace::new(&empty, Fq::zero(), Fq::one(), Fq::one());
    assert!(checked.is_fibonacci.is_empty());
    let single = build_canonical_trace(1, Fq::from(2u64), Fq::from(3u64));
    assert_eq!(single.states.len(), 1);
    assert_eq!(single.states[0].control_init, Fq::one());
    assert_eq!(single.states[0].control_final, Fq::one());
    assert_eq!(single.states[0].control_step, Fq::zero());
    let checked = CheckVMTrace::new(&single, Fq::from(5u64), Fq::from(2u64), Fq::from(3u64));
    assert!(all_zero(&checked.is_terminated_state));
    assert!(all_zero(&checked.is_initial_state_column_one));
}
