//! The three circuits of the kit, selected by name, and what they share: the
//! value that the public instance column holds at row 0.

pub mod cubic;
pub mod merkle;
pub mod poseidon;

use crate::circuit::cubic::{cubic_value, CubicCircuit};
use crate::circuit::merkle::{path_root, sample_positions, sample_siblings, MerkleCircuit, MERKLE_DEPTH};
use crate::circuit::poseidon::PoseidonCircuit;
use crate::field::{poseidon2, Fe};
use vstd::prelude::*;

verus! {

/// One of the kit's circuits.
#[derive(Clone, Copy, Debug, PartialEq, Eq, Structural)]
pub enum CircuitKind {
    /// `x^3 + x + 5 = y`.
    Cubic,
    /// Poseidon preimage knowledge.
    Poseidon,
    /// Poseidon Merkle-path membership.
    Merkle,
}

/// The circuit that a name selects: `"poseidon"` and `"merkle"` select those
/// circuits, and every other name (`"cubic"` included) selects the cubic one.
pub open spec fn kind_of_name(name: Seq<char>) -> CircuitKind {
    if name == "poseidon"@ {
        CircuitKind::Poseidon
    } else if name == "merkle"@ {
        CircuitKind::Merkle
    } else {
        CircuitKind::Cubic
    }
}

/// The smallest domain-size parameter `k` at which each circuit synthesizes.
pub open spec fn min_k(kind: CircuitKind) -> u32 {
    match kind {
        CircuitKind::Cubic => cubic::K,
        CircuitKind::Poseidon => poseidon::POSEIDON_K,
        CircuitKind::Merkle => merkle::MERKLE_K,
    }
}

/// Whether two byte slices hold the same bytes.
fn bytes_equal(a: &[u8], b: &[u8]) -> (r: bool)
    ensures
        r == (a@ == b@),
{
    if a.len() != b.len() {
        return false;
    }
    let mut i: usize = 0;
    while i < a.len()
        invariant
            a@.len() == b@.len(),
            0 <= i <= a@.len(),
            forall|j: int| 0 <= j < i ==> a@[j] == b@[j],
        decreases a@.len() - i,
    {
        if a[i] != b[i] {
            return false;
        }
        i = i + 1;
    }
    proof {
        assert(a@ =~= b@);
    }
    true
}

/// Whether a string equals another, decided on their UTF-8 encodings.
fn str_equal(a: &str, b: &str) -> (r: bool)
    ensures
        r == (a@ == b@),
{
    let r = bytes_equal(a.as_bytes(), b.as_bytes());
    proof {
        vstd::utf8::encode_utf8_decode_utf8(a@);
        vstd::utf8::encode_utf8_decode_utf8(b@);
    }
    r
}

impl CircuitKind {
    /// The circuit that `name` selects; unknown names select the cubic circuit,
    /// so no name is refused.
    pub fn from_name(name: &str) -> (r: CircuitKind)
        ensures
            r == kind_of_name(name@),
    {
        if str_equal(name, "poseidon") {
            CircuitKind::Poseidon
        } else if str_equal(name, "merkle") {
            CircuitKind::Merkle
        } else {
            CircuitKind::Cubic
        }
    }

    /// The circuit's name.
    pub fn name(&self) -> (r: &'static str)
        ensures
            r@ == (match *self {
                CircuitKind::Cubic => "cubic"@,
                CircuitKind::Poseidon => "poseidon"@,
                CircuitKind::Merkle => "merkle"@,
            }),
    {
        match self {
            CircuitKind::Cubic => "cubic",
            CircuitKind::Poseidon => "poseidon",
            CircuitKind::Merkle => "merkle",
        }
    }

    /// The smallest `k` at which this circuit synthesizes.
    pub fn min_k(&self) -> (r: u32)
        ensures
            r == min_k(*self),
    {
        match self {
            CircuitKind::Cubic => cubic::K,
            CircuitKind::Poseidon => poseidon::POSEIDON_K,
            CircuitKind::Merkle => merkle::MERKLE_K,
        }
    }
}

/// A circuit's witness, for whichever circuit it is.
#[derive(Clone, Copy)]
pub enum SampleCircuit {
    Cubic(CubicCircuit),
    Poseidon(PoseidonCircuit),
    Merkle(MerkleCircuit),
}

/// The public value of each circuit's sample witness: `35` for the cubic
/// circuit (`x = 3`), the Poseidon digest of `[1, 2]`, and the root of the
/// sample Merkle path.
pub open spec fn sample_public(kind: CircuitKind) -> nat {
    match kind {
        CircuitKind::Cubic => 35,
        CircuitKind::Poseidon => poseidon2(1, 2),
        CircuitKind::Merkle => path_root(
            42,
            sample_siblings(),
            sample_positions(),
            MERKLE_DEPTH as nat,
        ),
    }
}

impl CircuitKind {
    /// The circuit's canonical sample witness, with the public value that it
    /// proves: the cubic circuit with `x = 3` and public `35`, and the Poseidon
    /// and Merkle circuits' own samples.
    pub fn sample(&self) -> (r: (SampleCircuit, Fe))
        ensures
            r.1@ == sample_public(*self),
            circuit_accepts(r.0, seq![r.1]),
            match *self {
                CircuitKind::Cubic => r.0 matches SampleCircuit::Cubic(c) && c.x matches Some(x)
                    && x@ == 3,
                CircuitKind::Poseidon => r.0 matches SampleCircuit::Poseidon(c) && c.preimage matches Some(m)
                    && m@[0]@ == 1 && m@[1]@ == 2,
                CircuitKind::Merkle => r.0 matches SampleCircuit::Merkle(c) && c.all_known()
                    && c.leaf_value() == 42 && c.sibling_values() == sample_siblings()
                    && c.position_values() == sample_positions(),
            },
    {
        match self {
            CircuitKind::Cubic => {
                proof {
                    assert(3 * 3 * 3 + 3 + 5 == 35);
                    vstd::arithmetic::div_mod::lemma_small_mod(35, crate::field::modulus());
                }
                (SampleCircuit::Cubic(CubicCircuit { x: Some(Fe::from_u64(3)) }), Fe::from_u64(35))
            },
            CircuitKind::Poseidon => {
                let (c, hash) = PoseidonCircuit::sample();
                (SampleCircuit::Poseidon(c), hash)
            },
            CircuitKind::Merkle => {
                let (c, root) = MerkleCircuit::sample();
                (SampleCircuit::Merkle(c), root)
            },
        }
    }

    /// The `k` and public instance with which a proof of this circuit is
    /// checked: the cubic circuit takes `public` as given; the Poseidon and
    /// Merkle circuits' public values are not typeable, so their samples' are
    /// used.
    pub fn verify_instance(&self, public: u64) -> (r: (u32, Vec<Fe>))
        ensures
            r.0 == min_k(*self),
            r.1@.len() == 1,
            r.1@[0]@ == (match *self {
                CircuitKind::Cubic => public as nat,
                _ => sample_public(*self),
            }),
    {
        let value = match self {
            CircuitKind::Cubic => Fe::from_u64(public),
            _ => self.sample().1,
        };
        let mut v: Vec<Fe> = Vec::new();
        v.push(value);
        (self.min_k(), v)
    }
}

/// Whether a witness satisfies its circuit's constraints with `public` in the
/// instance column.
pub open spec fn circuit_accepts(c: SampleCircuit, public: Seq<Fe>) -> bool {
    match c {
        SampleCircuit::Cubic(c) => c.x matches Some(x) && cubic_value(x@) == instance_row0(public),
        SampleCircuit::Poseidon(c) => c.preimage matches Some(m) && poseidon2(m@[0]@, m@[1]@)
            == instance_row0(public),
        SampleCircuit::Merkle(c) => c.all_known() && path_root(
            c.leaf_value(),
            c.sibling_values(),
            c.position_values(),
            MERKLE_DEPTH as nat,
        ) == instance_row0(public),
    }
}

impl SampleCircuit {
    /// Whether the witness satisfies its circuit's constraints with `public`
    /// in the instance column.
    pub fn accepts(&self, public: &[Fe]) -> (r: bool)
        ensures
            r == circuit_accepts(*self, public@),
    {
        match self {
            SampleCircuit::Cubic(c) => c.accepts(public),
            SampleCircuit::Poseidon(c) => c.accepts(public),
            SampleCircuit::Merkle(c) => c.accepts(public),
        }
    }
}

/// The `k` and public instance with which the standalone verifier checks a
/// proof: for the name `"poseidon"`, the Poseidon `k` and the digest of the
/// Poseidon sample; for every other name (`"merkle"` included), the cubic `k`
/// and `public`.
pub fn standalone_verify_instance(circuit: &str, public: u64) -> (r: (u32, Vec<Fe>))
    ensures
        r.1@.len() == 1,
        circuit@ == "poseidon"@ ==> r.0 == poseidon::POSEIDON_K && r.1@[0]@ == poseidon2(1, 2),
        circuit@ != "poseidon"@ ==> r.0 == cubic::K && r.1@[0]@ == public as nat,
{
    let mut v: Vec<Fe> = Vec::new();
    if str_equal(circuit, "poseidon") {
        v.push(PoseidonCircuit::sample().1);
        (poseidon::POSEIDON_K, v)
    } else {
        v.push(Fe::from_u64(public));
        (cubic::K, v)
    }
}

/// Canonical minimum `k` for a circuit name, used when no `k` is given.
pub fn default_k(circuit: &str) -> (r: u32)
    ensures
        r == min_k(kind_of_name(circuit@)),
{
    CircuitKind::from_name(circuit).min_k()
}

/// A name selects the circuit that bears it.
pub proof fn lemma_name_selects_kind(kind: CircuitKind)
    ensures
        kind_of_name(
            match kind {
                CircuitKind::Cubic => "cubic"@,
                CircuitKind::Poseidon => "poseidon"@,
                CircuitKind::Merkle => "merkle"@,
            },
        ) == kind,
{
    reveal_strlit("cubic");
    reveal_strlit("poseidon");
    reveal_strlit("merkle");
    assert("cubic"@.len() == 5);
    assert("poseidon"@.len() == 8);
    assert("merkle"@.len() == 6);
}

/// The value held at row 0 of the public instance column: the first public
/// value, or zero when none is given (the column is zero-padded).
pub open spec fn instance_row0(public: Seq<Fe>) -> nat {
    if public.len() > 0 {
        public[0]@
    } else {
        0
    }
}

/// The element at row 0 of the public instance column.
pub fn first_instance(public: &[Fe]) -> (r: Fe)
    ensures
        r@ == instance_row0(public@),
{
    if public.len() > 0 {
        public[0]
    } else {
        Fe::zero()
    }
}

} // verus!
