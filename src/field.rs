use vstd::prelude::*;
use vstd::arithmetic::div_mod::*;
use vstd::arithmetic::power::{pow, lemma_pow0};

verus! {

/// The prime modulus of the field.
pub const MODULUS: u64 = 97;

/// A generator of the field's multiplicative group.
pub const GENERATOR: u64 = 5;

/// The modulus as a mathematical integer.
pub open spec fn p() -> int {
    MODULUS as int
}

/// Protocol configuration of the prime field: its modulus and generator.
pub struct FqConfig;

impl FqConfig {
    pub fn modulus() -> (r: u64)
        ensures
            r == MODULUS,
    {
        MODULUS
    }

    pub fn generator() -> (r: u64)
        ensures
            r == GENERATOR,
    {
        GENERATOR
    }
}

/// An element of the prime field, kept in canonical form `0 <= v < MODULUS`.
#[derive(Clone, Copy, Debug, PartialEq, Eq, Structural)]
pub struct Fq {
    v: u64,
}

impl Fq {
    #[verifier::type_invariant]
    spec fn canonical(self) -> bool {
        self.v < MODULUS
    }

    /// The residue that this element stands for.
    pub closed spec fn val(self) -> int {
        self.v as int
    }

    pub fn zero() -> (r: Fq)
        ensures
            r.val() == 0,
    {
        Fq { v: 0 }
    }

    pub fn one() -> (r: Fq)
        ensures
            r.val() == 1,
    {
        Fq { v: 1 }
    }

    /// The element `x mod p`.
    pub fn from_u64(x: u64) -> (r: Fq)
        ensures
            r.val() == x as int % p(),
    {
        Fq { v: x % MODULUS }
    }

    /// The canonical representative of this element.
    pub fn value(&self) -> (r: u64)
        ensures
            r as int == self.val(),
            r < MODULUS,
    {
        proof { use_type_invariant(self); }
        self.v
    }

    pub fn is_zero(&self) -> (r: bool)
        ensures
            r == (self.val() == 0),
    {
        self.v == 0
    }

    pub fn add(self, o: Fq) -> (r: Fq)
        ensures
            r.val() == (self.val() + o.val()) % p(),
    {
        proof {
            use_type_invariant(&self);
            use_type_invariant(&o);
        }
        Fq { v: (self.v + o.v) % MODULUS }
    }

    pub fn sub(self, o: Fq) -> (r: Fq)
        ensures
            r.val() == (self.val() - o.val()) % p(),
    {
        proof {
            use_type_invariant(&self);
            use_type_invariant(&o);
            lemma_mod_add_multiples_vanish(self.val() - o.val(), p());
        }
        Fq { v: (self.v + MODULUS - o.v) % MODULUS }
    }

    pub fn mul(self, o: Fq) -> (r: Fq)
        ensures
            r.val() == (self.val() * o.val()) % p(),
    {
        proof {
            use_type_invariant(&self);
            use_type_invariant(&o);
            assert(self.v * o.v < 97 * 97) by (nonlinear_arith)
                requires self.v < 97, o.v < 97;
        }
        Fq { v: (self.v * o.v) % MODULUS }
    }

    /// The element raised to the power `e`.
    pub fn pow(self, e: u64) -> (r: Fq)
        ensures
            r.val() == pow(self.val(), e as nat) % p(),
    {
        let mut acc = Fq::one();
        let mut i: u64 = 0;
        proof {
            lemma_small_mod(1, 97);
            lemma_pow0(self.val());
        }
        while i < e
            invariant
                i <= e,
                acc.val() == pow(self.val(), i as nat) % p(),
            decreases e - i,
        {
            proof {
                lemma_mul_mod_noop_left(pow(self.val(), i as nat), self.val(), p());
                reveal(pow);
                assert(pow(self.val(), (i + 1) as nat) == self.val() * pow(self.val(), i as nat));
                assert(pow(self.val(), i as nat) * self.val() == self.val() * pow(self.val(), i as nat))
                    by (nonlinear_arith);
            }
            acc = acc.mul(self);
            i = i + 1;
        }
        acc
    }
}

impl From<u64> for Fq {
    fn from(x: u64) -> (r: Fq) {
        Fq::from_u64(x)
    }
}

impl vstd::std_specs::convert::FromSpecImpl<u64> for Fq {
    open spec fn obeys_from_spec() -> bool {
        true
    }

    closed spec fn from_spec(x: u64) -> Fq {
        Fq { v: x % MODULUS }
    }
}

} // verus!
