//! The cubic circuit: "I know `x` such that `x^3 + x + 5 = y`", with `y` the
//! public instance.

use crate::circuit::{first_instance, instance_row0};
use crate::field::{
    fadd, fmul, fsub, lemma_fadd_assoc, lemma_fsub_is_fadd_inverse, lemma_fsub_zero, modulus, Fe,
};
use vstd::prelude::*;

verus! {

/// `k` parameter for the proving system: the circuit uses `2^K` rows.
pub const K: u32 = 4;

/// The cubic circuit's witness: the private input `x`, `None` when unknown
/// (key generation).
#[derive(Clone, Copy)]
pub struct CubicCircuit {
    pub x: Option<Fe>,
}

/// The advice values that synthesis assigns at row 0.
#[derive(Clone, Copy)]
pub struct CubicAssignment {
    /// private input `x`
    pub x: Fe,
    /// intermediate `x^2`
    pub x2: Fe,
    /// intermediate `x^3`
    pub x3: Fe,
    /// output `x^3 + x + 5`, wired to the public instance
    pub out: Fe,
}

/// The three gate polynomials vanish: `x2 - x*x`, `x3 - x2*x` and
/// `out - x3 - x - 5`, each evaluated in the field.
pub open spec fn cubic_gates_hold(a: CubicAssignment) -> bool {
    &&& fsub(a.x2@, fmul(a.x@, a.x@)) == 0
    &&& fsub(a.x3@, fmul(a.x2@, a.x@)) == 0
    &&& fsub(fsub(fsub(a.out@, a.x3@), a.x@), 5) == 0
}

/// `x^3 + x + 5` in the field.
pub open spec fn cubic_value(x: nat) -> nat {
    (x * x * x + x + 5) % modulus()
}

/// Whether the three gate polynomials vanish on `a`.
pub fn gates_hold(a: &CubicAssignment) -> (r: bool)
    ensures
        r == cubic_gates_hold(*a),
{
    let five = Fe::from_u64(5);
    let g1 = a.x2.sub(&a.x.mul(&a.x));
    let g2 = a.x3.sub(&a.x2.mul(&a.x));
    let g3 = a.out.sub(&a.x3).sub(&a.x).sub(&five);
    let zero = Fe::zero();
    g1.equals(&zero) && g2.equals(&zero) && g3.equals(&zero)
}

/// The field operations that synthesis performs compute `x^3 + x + 5`.
proof fn lemma_cubic_steps(x: nat)
    ensures
        fadd(fadd(fmul(fmul(x, x), x), x), 5) == cubic_value(x),
{
    let p = modulus() as int;
    let xi = x as int;
    let c = xi * xi * xi;
    let x3 = fmul(fmul(x, x), x);
    assert(x3 as int == c % p) by {
        vstd::arithmetic::div_mod::lemma_mul_mod_noop_left(xi * xi, xi, p);
    }
    lemma_fadd_assoc(x3, x, 5);
    assert(fadd(x3, fadd(x, 5)) as int == (x3 + (xi + 5)) % p) by {
        vstd::arithmetic::div_mod::lemma_add_mod_noop_right(x3 as int, xi + 5, p);
    }
    assert((x3 + (xi + 5)) % p == ((xi + 5) + c) % p) by {
        vstd::arithmetic::div_mod::lemma_add_mod_noop_right(xi + 5, c, p);
        assert(x3 + (xi + 5) == (xi + 5) + c % p);
    }
    assert((xi + 5) + c == c + xi + 5);
}

/// The gates force the output: whenever they hold, `out` is `x^3 + x + 5`.
pub proof fn lemma_gates_force_output(a: CubicAssignment)
    requires
        cubic_gates_hold(a),
    ensures
        a.out@ == cubic_value(a.x@),
{
    let (x, x2, x3, out) = (a.x@, a.x2@, a.x3@, a.out@);
    a.x.lemma_below_modulus();
    a.x2.lemma_below_modulus();
    a.x3.lemma_below_modulus();
    a.out.lemma_below_modulus();
    lemma_fsub_zero(x2, fmul(x, x));
    lemma_fsub_zero(x3, fmul(x2, x));
    let t1 = fsub(out, x3);
    let t2 = fsub(t1, x);
    lemma_fsub_zero(t2, 5);
    lemma_fsub_is_fadd_inverse(t1, x, 5);
    lemma_fsub_is_fadd_inverse(out, x3, fadd(x, 5));
    lemma_fadd_assoc(x3, x, 5);
    lemma_cubic_steps(x);
}

/// Honest values satisfy the gates.
proof fn lemma_honest_values_satisfy_gates(a: CubicAssignment)
    requires
        a.x2@ == fmul(a.x@, a.x@),
        a.x3@ == fmul(a.x2@, a.x@),
        a.out@ == fadd(fadd(a.x3@, a.x@), 5),
    ensures
        cubic_gates_hold(a),
{
    let (x, x2, x3, out) = (a.x@, a.x2@, a.x3@, a.out@);
    a.x.lemma_below_modulus();
    a.x2.lemma_below_modulus();
    a.x3.lemma_below_modulus();
    a.out.lemma_below_modulus();
    lemma_fsub_zero(x2, fmul(x, x));
    lemma_fsub_zero(x3, fmul(x2, x));
    lemma_fadd_assoc(x3, x, 5);
    lemma_fsub_is_fadd_inverse(out, x3, fadd(x, 5));
    lemma_fsub_is_fadd_inverse(fadd(x, 5), x, 5);
    lemma_fsub_zero(5, 5);
}

impl CubicCircuit {
    /// A circuit with no witness.
    pub fn without_witnesses(&self) -> (r: CubicCircuit)
        ensures
            r.x is None,
    {
        CubicCircuit { x: None }
    }

    /// The values that synthesis assigns: `x`, `x2 = x*x`, `x3 = x2*x` and
    /// `out = x3 + x + 5`; `None` when `x` is unknown. They satisfy the gates.
    pub fn assign(&self) -> (r: Option<CubicAssignment>)
        ensures
            r is None <==> self.x is None,
            r matches Some(a) ==> {
                &&& self.x == Some(a.x)
                &&& a.x2@ == fmul(a.x@, a.x@)
                &&& a.x3@ == fmul(a.x2@, a.x@)
                &&& a.out@ == fadd(fadd(a.x3@, a.x@), 5)
                &&& cubic_gates_hold(a)
            },
    {
        match self.x {
            None => None,
            Some(x) => {
                let x2 = x.mul(&x);
                let x3 = x2.mul(&x);
                let out = x3.add(&x).add(&Fe::from_u64(5));
                let a = CubicAssignment { x, x2, x3, out };
                proof {
                    lemma_honest_values_satisfy_gates(a);
                }
                Some(a)
            },
        }
    }

    /// Whether the circuit's constraints are satisfied with `public` in its
    /// instance column: `x` is known, the gates hold on the assigned values,
    /// and `out` equals the value at row 0. That is, `x^3 + x + 5` is the
    /// public value.
    pub fn accepts(&self, public: &[Fe]) -> (r: bool)
        ensures
            r == (self.x matches Some(x) && cubic_value(x@) == instance_row0(public@)),
    {
        match self.assign() {
            None => false,
            Some(a) => {
                proof {
                    lemma_gates_force_output(a);
                }
                gates_hold(&a) && a.out.equals(&first_instance(public))
            },
        }
    }
}

impl Default for CubicCircuit {
    fn default() -> (r: CubicCircuit)
        ensures
            r.x is None,
    {
        CubicCircuit { x: None }
    }
}

} // verus!
