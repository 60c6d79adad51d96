use vstd::prelude::*;
use vstd::arithmetic::power::{pow, lemma_pow0, lemma_pow_adds, lemma_pow1};
use vstd::arithmetic::div_mod::{lemma_mul_mod_noop_left, lemma_mul_mod_noop_right, lemma_add_mod_noop_right};
use crate::field::{Fq, p, MODULUS, GENERATOR};
use crate::vm::state::VMTrace;
use crate::vm::constants::NUM_DATA_COLUMNS;

verus! {

/// How many times larger the extended evaluation domain is than the trace.
pub const REDUNDANCY_FACTOR: usize = 4;

/// Why a column could not be encoded.
#[derive(Clone, Copy, Debug, PartialEq, Eq, Structural)]
pub enum EncoderError {
    /// The field has no multiplicative subgroup of this order.
    NoSubgroup { size: usize },
    /// The number of values does not match the expected length.
    DimensionMismatch { expected: usize, found: usize },
    /// The coefficients do not reproduce the evaluation at this row.
    NotInterpolating { row: usize },
}

/// The polynomial with coefficients `coeffs` (lowest degree first) at `x`.
pub open spec fn poly_eval(coeffs: Seq<Fq>, x: int) -> int
    decreases coeffs.len(),
{
    if coeffs.len() == 0 {
        0
    } else {
        (coeffs[0].val() + x * poly_eval(coeffs.drop_first(), x)) % p()
    }
}

/// The `i`-th point of the domain generated by `g`: `g^i` in the field.
pub open spec fn domain_point(g: int, i: nat) -> int {
    pow(g, i) % p()
}

/// The field has a multiplicative subgroup of order `n`.
pub open spec fn has_subgroup(n: int) -> bool {
    n > 0 && (p() - 1) % n == 0
}

/// `coeffs` has fewer than `evals.len()` + 1 terms and takes the value
/// `evals[i]` at the `i`-th point of the domain generated by `g`.
pub open spec fn interpolates(coeffs: Seq<Fq>, evals: Seq<Fq>, g: int) -> bool {
    &&& coeffs.len() == evals.len()
    &&& forall|i: int| 0 <= i < evals.len() ==> #[trigger] poly_eval(coeffs, domain_point(g, i as nat)) == evals[i].val()
}

/// Evaluates the polynomial with coefficients `coeffs` at `x`.
pub fn evaluate(coeffs: &[Fq], x: Fq) -> (r: Fq)
    ensures
        r.val() == poly_eval(coeffs@, x.val()),
{
    let mut acc = Fq::zero();
    let mut j: usize = coeffs.len();
    assert(coeffs@.subrange(j as int, coeffs@.len() as int).len() == 0);
    while j > 0
        invariant
            j <= coeffs@.len(),
            acc.val() == poly_eval(coeffs@.subrange(j as int, coeffs@.len() as int), x.val()),
        decreases j,
    {
        j = j - 1;
        let ghost tail = coeffs@.subrange(j as int, coeffs@.len() as int);
        assert(tail.drop_first() =~= coeffs@.subrange(j + 1, coeffs@.len() as int));
        let t = acc.mul(x);
        proof {
            lemma_mul_mod_noop_right(x.val(), poly_eval(tail.drop_first(), x.val()), p());
            lemma_add_mod_noop_right(coeffs@[j as int].val(), x.val() * poly_eval(tail.drop_first(), x.val()), p());
            assert(acc.val() * x.val() == x.val() * acc.val()) by (nonlinear_arith);
        }
        acc = coeffs[j].add(t);
    }
    assert(coeffs@.subrange(0, coeffs@.len() as int) =~= coeffs@);
    acc
}

/// The generator of the subgroup of order `n`: `GENERATOR^((p - 1) / n)`.
pub open spec fn subgroup_generator(n: int) -> int {
    pow(GENERATOR as int, ((p() - 1) / n) as nat) % p()
}

/// The generator of the evaluation domain of order `n`, where the field has a
/// multiplicative subgroup of that order.
pub fn domain_generator(n: usize) -> (r: Result<Fq, EncoderError>)
    ensures
        r is Ok <==> has_subgroup(n as int),
        r matches Ok(g) ==> g.val() == subgroup_generator(n as int),
        r matches Err(e) ==> e == (EncoderError::NoSubgroup { size: n }),
{
    if n == 0 || (MODULUS - 1) % (n as u64) != 0 {
        return Err(EncoderError::NoSubgroup { size: n });
    }
    let g = Fq::from_u64(GENERATOR);
    proof {
        vstd::arithmetic::power::lemma_pow_mod_noop(GENERATOR as int, ((p() - 1) / n as int) as nat, p());
    }
    Ok(g.pow((MODULUS - 1) / (n as u64)))
}

/// The values of the polynomial `coeffs` at the first `size` points of the
/// domain generated by `generator`.
pub fn evaluate_over_domain(coeffs: &[Fq], generator: Fq, size: usize) -> (r: Vec<Fq>)
    ensures
        r@.len() == size,
        forall|i: int| 0 <= i < size ==> #[trigger] r@[i].val() == poly_eval(coeffs@, domain_point(generator.val(), i as nat)),
{
    let mut out: Vec<Fq> = Vec::with_capacity(size);
    let mut x = Fq::one();
    let mut i: usize = 0;
    proof {
        lemma_pow0(generator.val());
        vstd::arithmetic::div_mod::lemma_small_mod(1, 97);
    }
    while i < size
        invariant
            i <= size,
            out@.len() == i,
            x.val() == domain_point(generator.val(), i as nat),
            forall|k: int| 0 <= k < i ==> #[trigger] out@[k].val() == poly_eval(coeffs@, domain_point(generator.val(), k as nat)),
        decreases size - i,
    {
        out.push(evaluate(coeffs, x));
        proof {
            lemma_pow_adds(generator.val(), i as nat, 1);
            lemma_pow1(generator.val());
            lemma_mul_mod_noop_left(pow(generator.val(), i as nat), generator.val(), p());
        }
        x = x.mul(generator);
        i = i + 1;
    }
    out
}

/// Checks that `coefficients` is the interpolant of `evaluations` over the
/// domain generated by `generator`: one term per evaluation, and the value
/// `evaluations[i]` at the `i`-th domain point. Otherwise reports the length
/// mismatch, or the first row where the values differ.
pub fn check_interpolation(evaluations: &[Fq], generator: Fq, coefficients: &[Fq]) -> (r: Result<(), EncoderError>)
    ensures
        r is Ok <==> interpolates(coefficients@, evaluations@, generator.val()),
        r matches Err(e) ==> match e {
            EncoderError::DimensionMismatch { expected, found } => expected == evaluations@.len()
                && found == coefficients@.len() && expected != found,
            EncoderError::NotInterpolating { row } => coefficients@.len() == evaluations@.len()
                && row < evaluations@.len()
                && poly_eval(coefficients@, domain_point(generator.val(), row as nat)) != evaluations@[row as int].val()
                && forall|k: int| 0 <= k < row ==> #[trigger] poly_eval(coefficients@, domain_point(generator.val(), k as nat)) == evaluations@[k].val(),
            EncoderError::NoSubgroup { .. } => false,
        },
{
    if coefficients.len() != evaluations.len() {
        return Err(EncoderError::DimensionMismatch { expected: evaluations.len(), found: coefficients.len() });
    }
    let values = evaluate_over_domain(coefficients, generator, evaluations.len());
    let mut i: usize = 0;
    while i < evaluations.len()
        invariant
            i <= evaluations@.len(),
            values@.len() == evaluations@.len(),
            coefficients@.len() == evaluations@.len(),
            forall|k: int| 0 <= k < evaluations@.len() ==> #[trigger] values@[k].val() == poly_eval(coefficients@, domain_point(generator.val(), k as nat)),
            forall|k: int| 0 <= k < i ==> #[trigger] poly_eval(coefficients@, domain_point(generator.val(), k as nat)) == evaluations@[k].val(),
        decreases evaluations@.len() - i,
    {
        if values[i].value() != evaluations[i].value() {
            return Err(EncoderError::NotInterpolating { row: i });
        }
        i = i + 1;
    }
    Ok(())
}

/// The values of the polynomial `coeffs`, of degree below `num_rows`, over the
/// extended domain of `REDUNDANCY_FACTOR * num_rows` points.
pub fn low_degree_extension(coeffs: &[Fq], num_rows: usize) -> (r: Result<Vec<Fq>, EncoderError>)
    requires
        num_rows <= usize::MAX / REDUNDANCY_FACTOR,
    ensures
        r is Ok <==> coeffs@.len() <= num_rows && has_subgroup(REDUNDANCY_FACTOR * num_rows),
        r matches Ok(v) ==> v@.len() == REDUNDANCY_FACTOR * num_rows
            && forall|i: int| 0 <= i < v@.len() ==> #[trigger] v@[i].val() == poly_eval(coeffs@,
                domain_point(subgroup_generator(REDUNDANCY_FACTOR * num_rows), i as nat)),
        r matches Err(e) ==> if coeffs@.len() > num_rows {
            e == (EncoderError::DimensionMismatch { expected: num_rows, found: coeffs@.len() as usize })
        } else {
            e == (EncoderError::NoSubgroup { size: (REDUNDANCY_FACTOR * num_rows) as usize })
        },
{
    if coeffs.len() > num_rows {
        return Err(EncoderError::DimensionMismatch { expected: num_rows, found: coeffs.len() });
    }
    let size = REDUNDANCY_FACTOR * num_rows;
    let g = domain_generator(size)?;
    Ok(evaluate_over_domain(coeffs, g, size))
}

/// The values of data column `c` down the rows of the trace.
pub fn trace_column(trace: &VMTrace, c: usize) -> (r: Vec<Fq>)
    requires
        c < 3,
    ensures
        r@.len() == trace.states@.len(),
        r@ == column_of(*trace, c as int),
{
    let mut out: Vec<Fq> = Vec::with_capacity(trace.states.len());
    let mut i: usize = 0;
    while i < trace.states.len()
        invariant
            c < 3,
            i <= trace.states@.len(),
            out@.len() == i,
            forall|k: int| 0 <= k < i ==> #[trigger] out@[k] == trace.states@[k].data_columns@[c as int],
        decreases trace.states@.len() - i,
    {
        out.push(trace.states[i].data_columns[c]);
        i = i + 1;
    }
    assert(out@ =~= column_of(*trace, c as int));
    out
}

/// The values of data column `c` down the rows of `t`.
pub open spec fn column_of(t: VMTrace, c: int) -> Seq<Fq> {
    Seq::new(t.states@.len(), |i: int| t.states@[i].data_columns@[c])
}

/// Evaluating the interpolant of a column over its own domain gives the
/// column back, row for row, and the interpolant has fewer terms than the
/// column has rows plus one: its degree is below the number of rows.
pub proof fn lemma_interpolation_round_trip(coeffs: Seq<Fq>, evals: Seq<Fq>, g: int, values: Seq<Fq>)
    requires
        interpolates(coeffs, evals, g),
        values.len() == evals.len(),
        forall|i: int| 0 <= i < values.len() ==> #[trigger] values[i].val() == poly_eval(coeffs, domain_point(g, i as nat)),
    ensures
        coeffs.len() == evals.len(),
        forall|i: int| 0 <= i < evals.len() ==> #[trigger] values[i].val() == evals[i].val(),
{
    assert forall|i: int| 0 <= i < evals.len() implies #[trigger] values[i].val() == evals[i].val() by {
        assert(poly_eval(coeffs, domain_point(g, i as nat)) == evals[i].val());
    }
}

/// The extended domain holds the base domain: its point `REDUNDANCY_FACTOR * i`
/// is the base domain's point `i`, so the low-degree extension agrees with
/// the column at every `REDUNDANCY_FACTOR`-th place.
pub proof fn lemma_extension_contains_base_domain(n: int, i: nat)
    requires
        n > 0,
        has_subgroup(REDUNDANCY_FACTOR * n),
    ensures
        has_subgroup(n),
        domain_point(subgroup_generator(REDUNDANCY_FACTOR * n), (REDUNDANCY_FACTOR * i) as nat)
            == domain_point(subgroup_generator(n), i),
{
    let a = (p() - 1) / (4 * n);
    vstd::arithmetic::div_mod::lemma_fundamental_div_mod(p() - 1, 4 * n);
    assert(p() - 1 == (4 * n) * a);
    assert((4 * n) * a == n * (4 * a)) by (nonlinear_arith);
    vstd::arithmetic::div_mod::lemma_div_multiples_vanish(4 * a, n);
    assert((p() - 1) / n == 4 * a);
    vstd::arithmetic::div_mod::lemma_mod_multiples_basic(4 * a, n);
    assert((n * (4 * a)) % n == 0) by (nonlinear_arith)
        requires n > 0;
    assert(a >= 0) by (nonlinear_arith)
        requires p() - 1 == (4 * n) * a, n > 0;
    let g = GENERATOR as int;
    let k = (4 * i) as nat;
    vstd::arithmetic::power::lemma_pow_mod_noop(pow(g, a as nat), k, p());
    vstd::arithmetic::power::lemma_pow_mod_noop(pow(g, (4 * a) as nat), i, p());
    vstd::arithmetic::power::lemma_pow_multiplies(g, a as nat, k);
    vstd::arithmetic::power::lemma_pow_multiplies(g, (4 * a) as nat, i);
    assert(a * k == (4 * a) * i) by (nonlinear_arith)
        requires k == 4 * i;
}

/// One polynomial per data column of a trace, each as its coefficients,
/// lowest degree first.
pub struct VMTracePolynomial {
    pub columns: Vec<Vec<Fq>>,
}

impl VMTracePolynomial {
    /// Creates the encoding from its column polynomials.
    pub fn new(columns: Vec<Vec<Fq>>) -> (r: Self)
        ensures
            r.columns == columns,
    {
        VMTracePolynomial { columns }
    }

    /// Number of columns (polynomials).
    pub fn num_columns(&self) -> (r: usize)
        ensures
            r == self.columns@.len(),
    {
        self.columns.len()
    }

    /// All column polynomials.
    pub fn as_slice(&self) -> (r: &[Vec<Fq>])
        ensures
            r@ == self.columns@,
    {
        self.columns.as_slice()
    }

    /// All column polynomials, for change in place.
    pub fn as_mut_slice(&mut self) -> (r: &mut [Vec<Fq>])
        ensures
            r@ == old(self).columns@,
            final(self).columns@ == final(r)@,
    {
        self.columns.as_mut_slice()
    }

    /// The encoding of `trace` by the interpolants that `coefficients` holds,
    /// one per data column, over the domain generated by `generator`; each is
    /// checked to reproduce its column at every row.
    pub fn from_trace(trace: &VMTrace, generator: Fq, coefficients: Vec<Vec<Fq>>) -> (r: Result<Self, EncoderError>)
        ensures
            r is Ok <==> coefficients@.len() == NUM_DATA_COLUMNS && forall|c: int|
                0 <= c < NUM_DATA_COLUMNS ==> #[trigger] interpolates(coefficients@[c]@, column_of(*trace, c), generator.val()),
            r matches Ok(tp) ==> tp.columns@ == coefficients@,
            r matches Err(e) ==> coefficients@.len() != NUM_DATA_COLUMNS ==> e == (EncoderError::DimensionMismatch {
                expected: NUM_DATA_COLUMNS,
                found: coefficients@.len() as usize,
            }),
    {
        if coefficients.len() != NUM_DATA_COLUMNS {
            return Err(EncoderError::DimensionMismatch { expected: NUM_DATA_COLUMNS, found: coefficients.len() });
        }
        let mut c: usize = 0;
        while c < NUM_DATA_COLUMNS
            invariant
                coefficients@.len() == NUM_DATA_COLUMNS,
                c <= NUM_DATA_COLUMNS,
                forall|k: int| 0 <= k < c ==> #[trigger] interpolates(coefficients@[k]@, column_of(*trace, k), generator.val()),
            decreases NUM_DATA_COLUMNS - c,
        {
            let column = trace_column(trace, c);
            check_interpolation(column.as_slice(), generator, coefficients[c].as_slice())?;
            c = c + 1;
        }
        Ok(VMTracePolynomial { columns: coefficients })
    }
}

} // verus!
