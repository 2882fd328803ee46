//! Poseidon preimage knowledge: "I know two field elements whose Poseidon hash
//! is the public `hash`".

use crate::circuit::{first_instance, instance_row0};
use crate::field::{hash_pair, poseidon2, Fe};
use vstd::prelude::*;

verus! {

/// Smallest `k` (`2^k` rows) at which the Poseidon circuit synthesizes.
pub const POSEIDON_K: u32 = 6;

/// The Poseidon preimage circuit's witness: the private two-element preimage,
/// `None` when it is unknown (key generation).
#[derive(Clone, Copy)]
pub struct PoseidonCircuit {
    pub preimage: Option<[Fe; 2]>,
}

impl PoseidonCircuit {
    /// A circuit with no witness.
    pub fn without_witnesses(&self) -> (r: PoseidonCircuit)
        ensures
            r.preimage is None,
    {
        PoseidonCircuit { preimage: None }
    }

    /// The circuit for the preimage `[1, 2]`, with the Poseidon digest that
    /// must be supplied as its public instance.
    pub fn sample() -> (r: (PoseidonCircuit, Fe))
        ensures
            r.0.preimage matches Some(m) && m@[0]@ == 1 && m@[1]@ == 2,
            r.1@ == poseidon2(1, 2),
    {
        let preimage = [Fe::from_u64(1), Fe::from_u64(2)];
        let expected_hash = hash_pair(&preimage[0], &preimage[1]);
        (PoseidonCircuit { preimage: Some(preimage) }, expected_hash)
    }

    /// Whether the circuit's constraints are satisfied with `public` in its
    /// instance column: the preimage is known and its Poseidon digest is the
    /// value at row 0.
    pub fn accepts(&self, public: &[Fe]) -> (r: bool)
        ensures
            r == (self.preimage matches Some(m) && poseidon2(m@[0]@, m@[1]@) == instance_row0(
                public@,
            )),
    {
        match &self.preimage {
            None => false,
            Some(m) => {
                let digest = hash_pair(&m[0], &m[1]);
                digest.equals(&first_instance(public))
            },
        }
    }
}

impl Default for PoseidonCircuit {
    fn default() -> (r: PoseidonCircuit)
        ensures
            r.preimage is None,
    {
        PoseidonCircuit { preimage: None }
    }
}

} // verus!
