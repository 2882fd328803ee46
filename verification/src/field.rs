//! Elements of the Pallas base field `Fp`, held as their canonical
//! little-endian 32-byte encoding, with the arithmetic delegated to
//! `pasta_curves`.

use ff::PrimeField;
use halo2_gadgets::poseidon::primitives::{ConstantLength, P128Pow5T3};
use pasta_curves::Fp;
use crate::prime_cert::lemma_pallas_modulus_prime;
use crate::primality::{is_prime, lemma_euclid};
use vstd::prelude::*;

verus! {

/// The Pallas base-field modulus
/// `p = 0x40000000000000000000000000000000224698fc094cf91b992d30ed00000001`.
pub open spec fn modulus() -> nat {
    0x40000000000000000000000000000000224698fc094cf91b992d30ed00000001nat
}

/// Addition in the field, on values below the modulus.
pub open spec fn fadd(a: nat, b: nat) -> nat {
    (a + b) % modulus()
}

/// Subtraction in the field, on values below the modulus.
pub open spec fn fsub(a: nat, b: nat) -> nat {
    ((a + modulus() - b) % (modulus() as int)) as nat
}

/// Multiplication in the field.
pub open spec fn fmul(a: nat, b: nat) -> nat {
    (a * b) % modulus()
}

/// The natural number that a little-endian byte string encodes.
pub open spec fn le_value(s: Seq<u8>) -> nat
    decreases s.len(),
{
    if s.len() == 0 {
        0
    } else {
        s[0] as nat + 256 * le_value(s.drop_first())
    }
}

/// A field element: the canonical little-endian encoding of an integer below
/// the modulus.
#[derive(Clone, Copy)]
pub struct Fe {
    repr: [u8; 32],
}

impl Fe {
    #[verifier::type_invariant]
    spec fn canonical(self) -> bool {
        le_value(self.repr@) < modulus()
    }
}

impl View for Fe {
    type V = nat;

    closed spec fn view(&self) -> nat {
        le_value(self.repr@) % modulus()
    }
}

/// Wraps `Fp::from(u64)` (through `PrimeField::to_repr`): the field element
/// whose value is `n`.
#[verifier::external_body]
fn fp_from_u64(n: u64) -> (r: Fe)
    ensures
        r@ == n as nat,
{
    Fe { repr: Fp::from(n).to_repr() }
}

/// Wraps `PrimeField::from_repr` for `Fp`: the bytes are accepted exactly when
/// the little-endian integer they encode is below the modulus.
///
/// Every wrapper here returns the element through `PrimeField::to_repr`, which
/// gives the canonical little-endian encoding of the value (below the
/// modulus), and reads its arguments back through `from_repr(..).unwrap()`,
/// which cannot fail on such an encoding; the type invariant of [`Fe`] rests
/// on that.
#[verifier::external_body]
fn fp_from_repr(bytes: [u8; 32]) -> (r: Option<Fe>)
    ensures
        r is Some <==> le_value(bytes@) < modulus(),
        r matches Some(f) ==> f@ == le_value(bytes@),
{
    match Option::<Fp>::from(Fp::from_repr(bytes)) {
        Some(f) => Some(Fe { repr: f.to_repr() }),
        None => None,
    }
}

/// Wraps `Fp + Fp`: addition modulo the field modulus.
#[verifier::external_body]
fn fp_add(a: &Fe, b: &Fe) -> (r: Fe)
    ensures
        r@ == fadd(a@, b@),
{
    let x = Fp::from_repr(a.repr).unwrap();
    let y = Fp::from_repr(b.repr).unwrap();
    Fe { repr: (x + y).to_repr() }
}

/// Wraps `Fp - Fp`: subtraction modulo the field modulus.
#[verifier::external_body]
fn fp_sub(a: &Fe, b: &Fe) -> (r: Fe)
    ensures
        r@ == fsub(a@, b@),
{
    let x = Fp::from_repr(a.repr).unwrap();
    let y = Fp::from_repr(b.repr).unwrap();
    Fe { repr: (x - y).to_repr() }
}

/// Wraps `Fp * Fp`: multiplication modulo the field modulus.
#[verifier::external_body]
fn fp_mul(a: &Fe, b: &Fe) -> (r: Fe)
    ensures
        r@ == fmul(a@, b@),
{
    let x = Fp::from_repr(a.repr).unwrap();
    let y = Fp::from_repr(b.repr).unwrap();
    Fe { repr: (x * y).to_repr() }
}

/// The value of the width-3, rate-2 Poseidon hash (`P128Pow5T3`, constant
/// input length 2) of the two field elements with values `a` and `b`.
pub uninterp spec fn poseidon2(a: nat, b: nat) -> nat;

/// Wraps `halo2_poseidon::Hash::<Fp, P128Pow5T3, ConstantLength<2>, 3, 2>::hash`
/// on the message `[a, b]`; its result is named by [`poseidon2`].
#[verifier::external_body]
fn poseidon_hash_pair(a: &Fe, b: &Fe) -> (r: Fe)
    ensures
        r@ == poseidon2(a@, b@),
{
    let x = Fp::from_repr(a.repr).unwrap();
    let y = Fp::from_repr(b.repr).unwrap();
    let h = halo2_gadgets::poseidon::primitives::Hash::<Fp, P128Pow5T3, ConstantLength<2>, 3, 2>::init().hash([x, y]);
    Fe { repr: h.to_repr() }
}

/// Reduction of a value below twice the modulus takes off at most one modulus.
pub proof fn lemma_mod_below_twice(x: int)
    requires
        0 <= x < 2 * modulus(),
    ensures
        x % (modulus() as int) == if x < modulus() {
            x
        } else {
            x - modulus()
        },
{
    let m = modulus() as int;
    if x < m {
        vstd::arithmetic::div_mod::lemma_small_mod(x as nat, m as nat);
    } else {
        vstd::arithmetic::div_mod::lemma_mod_add_multiples_vanish(x - m, m);
        vstd::arithmetic::div_mod::lemma_small_mod((x - m) as nat, m as nat);
    }
}

/// In the field, `a - b == c` exactly when `a == b + c`.
pub proof fn lemma_fsub_is_fadd_inverse(a: nat, b: nat, c: nat)
    requires
        a < modulus(),
        b < modulus(),
        c < modulus(),
    ensures
        (fsub(a, b) == c) == (a == fadd(b, c)),
{
    lemma_mod_below_twice(a + modulus() - b);
    lemma_mod_below_twice((b + c) as int);
}

/// Field addition is associative.
pub proof fn lemma_fadd_assoc(a: nat, b: nat, c: nat)
    ensures
        fadd(fadd(a, b), c) == fadd(a, fadd(b, c)),
{
    let p = modulus() as int;
    let (x, y, z) = (a as int, b as int, c as int);
    vstd::arithmetic::div_mod::lemma_add_mod_noop_right(z, x + y, p);
    vstd::arithmetic::div_mod::lemma_add_mod_noop_right(x, y + z, p);
    assert(z + (x + y) == x + (y + z));
    assert((x + y) % p + z == z + (x + y) % p);
}

/// In the field, `a - b == 0` exactly when `a == b`.
pub proof fn lemma_fsub_zero(a: nat, b: nat)
    requires
        a < modulus(),
        b < modulus(),
    ensures
        (fsub(a, b) == 0) == (a == b),
{
    lemma_mod_below_twice(a + modulus() - b);
}

/// The modulus is prime.
pub proof fn lemma_modulus_prime()
    ensures
        is_prime(modulus() as int),
{
    lemma_pallas_modulus_prime();
}

/// In the field, `b * (b - 1) == 0` holds only for `b` equal to 0 or 1.
pub proof fn lemma_bit_gate_boolean(b: nat)
    requires
        b < modulus(),
        fmul(b, fsub(b, 1)) == 0,
    ensures
        b == 0 || b == 1,
{
    if b > 0 {
        let p = modulus() as int;
        lemma_mod_below_twice(b + modulus() - 1);
        assert(fsub(b, 1) == b - 1);
        lemma_modulus_prime();
        lemma_euclid(p, b as int, b - 1);
        vstd::arithmetic::div_mod::lemma_small_mod(b, modulus());
        vstd::arithmetic::div_mod::lemma_small_mod((b - 1) as nat, modulus());
    }
}

/// Two byte strings of the same length that encode the same integer are equal.
proof fn lemma_le_value_injective(s: Seq<u8>, t: Seq<u8>)
    requires
        s.len() == t.len(),
        le_value(s) == le_value(t),
    ensures
        s =~= t,
    decreases s.len(),
{
    if s.len() > 0 {
        let a = le_value(s.drop_first());
        let b = le_value(t.drop_first());
        assert(s[0] as nat + 256 * a == t[0] as nat + 256 * b);
        assert(s[0] == t[0] && a == b) by (nonlinear_arith)
            requires
                s[0] as nat + 256 * a == t[0] as nat + 256 * b,
                s[0] < 256,
                t[0] < 256,
        {
        }
        lemma_le_value_injective(s.drop_first(), t.drop_first());
        assert forall|i: int| 0 <= i < s.len() implies s[i] == t[i] by {
            if i > 0 {
                assert(s[i] == s.drop_first()[i - 1]);
                assert(t[i] == t.drop_first()[i - 1]);
            }
        }
    }
}

impl Fe {
    /// The field element with value `n` (every `u64` is below the modulus).
    pub fn from_u64(n: u64) -> (r: Fe)
        ensures
            r@ == n as nat,
    {
        fp_from_u64(n)
    }

    /// Zero.
    pub fn zero() -> (r: Fe)
        ensures
            r@ == 0,
    {
        fp_from_u64(0)
    }

    /// One.
    pub fn one() -> (r: Fe)
        ensures
            r@ == 1,
    {
        fp_from_u64(1)
    }

    /// One for `true`, zero for `false`.
    pub fn from_bool(b: bool) -> (r: Fe)
        ensures
            r@ == (if b { 1nat } else { 0nat }),
    {
        if b {
            Fe::one()
        } else {
            Fe::zero()
        }
    }

    /// Decodes a canonical little-endian encoding; `None` when the encoded
    /// integer is not below the modulus.
    pub fn from_repr(bytes: [u8; 32]) -> (r: Option<Fe>)
        ensures
            r is Some <==> le_value(bytes@) < modulus(),
            r matches Some(f) ==> f@ == le_value(bytes@),
    {
        fp_from_repr(bytes)
    }

    /// The canonical little-endian encoding of this element.
    pub fn to_repr(&self) -> (r: [u8; 32])
        ensures
            le_value(r@) == self@,
            le_value(r@) < modulus(),
    {
        proof {
            use_type_invariant(self);
            vstd::arithmetic::div_mod::lemma_small_mod(le_value(self.repr@), modulus());
        }
        self.repr
    }

    /// Every element's value is below the modulus.
    pub proof fn lemma_below_modulus(self)
        ensures
            self@ < modulus(),
    {
    }

    /// Field addition.
    pub fn add(&self, other: &Fe) -> (r: Fe)
        ensures
            r@ == fadd(self@, other@),
    {
        fp_add(self, other)
    }

    /// Field subtraction.
    pub fn sub(&self, other: &Fe) -> (r: Fe)
        ensures
            r@ == fsub(self@, other@),
    {
        fp_sub(self, other)
    }

    /// Field multiplication.
    pub fn mul(&self, other: &Fe) -> (r: Fe)
        ensures
            r@ == fmul(self@, other@),
    {
        fp_mul(self, other)
    }

    /// Whether the two elements are equal, decided on their encodings.
    pub fn equals(&self, other: &Fe) -> (r: bool)
        ensures
            r == (self@ == other@),
    {
        let mut i: usize = 0;
        while i < 32
            invariant
                0 <= i <= 32,
                forall|j: int| 0 <= j < i ==> self.repr@[j] == other.repr@[j],
            decreases 32 - i,
        {
            if self.repr[i] != other.repr[i] {
                proof {
                    use_type_invariant(self);
                    use_type_invariant(other);
                    vstd::arithmetic::div_mod::lemma_small_mod(le_value(self.repr@), modulus());
                    vstd::arithmetic::div_mod::lemma_small_mod(le_value(other.repr@), modulus());
                    if self@ == other@ {
                        lemma_le_value_injective(self.repr@, other.repr@);
                    }
                }
                return false;
            }
            i = i + 1;
        }
        proof {
            assert(self.repr@ =~= other.repr@);
        }
        true
    }
}

/// The Poseidon hash of the pair `(a, b)`.
pub fn hash_pair(a: &Fe, b: &Fe) -> (r: Fe)
    ensures
        r@ == poseidon2(a@, b@),
{
    poseidon_hash_pair(a, b)
}

} // verus!
