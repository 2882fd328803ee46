use zk_core::circuit::cubic::{gates_hold, CubicAssignment, CubicCircuit, K};
use zk_core::circuit::merkle::{
    rows_satisfied, swap_gate_check, MerkleCircuit, SwapRow, MERKLE_DEPTH, MERKLE_K,
};
use zk_core::circuit::poseidon::{PoseidonCircuit, POSEIDON_K};
use zk_core::circuit::{default_k, first_instance, standalone_verify_instance, CircuitKind, SampleCircuit};
use zk_core::field::{hash_pair, Fe};

fn fe(n: u64) -> Fe {
    Fe::from_u64(n)
}

fn same(a: &Fe, b: &Fe) -> bool {
    a.equals(b)
}

#[test]
fn cubic_accepts_valid_witness() {
    // x = 3 -> y = 27 + 3 + 5 = 35
    let circuit = CubicCircuit { x: Some(fe(3)) };
    let public = vec![fe(35)];
    assert!(circuit.accepts(&public));
}

#[test]
fn cubic_rejects_wrong_public() {
    let circuit = CubicCircuit { x: Some(fe(3)) };
    let public = vec![fe(36)]; // wrong y
    assert!(!circuit.accepts(&public));
}

#[test]
fn poseidon_accepts_valid_preimage() {
    let (circuit, expected_hash) = PoseidonCircuit::sample();
    assert!(circuit.accepts(&[expected_hash]));
}

#[test]
fn poseidon_rejects_wrong_hash() {
    let (circuit, expected_hash) = PoseidonCircuit::sample();
    let wrong = expected_hash.add(&Fe::one());
    assert!(!circuit.accepts(&[wrong]));
}

#[test]
fn merkle_accepts_valid_path() {
    let (circuit, root) = MerkleCircuit::sample();
    assert!(circuit.accepts(&[root]));
}

#[test]
fn merkle_rejects_wrong_root() {
    let (circuit, root) = MerkleCircuit::sample();
    let wrong = root.add(&Fe::one());
    assert!(!circuit.accepts(&[wrong]));
}

#[test]
fn cubic_assignment_matches_synthesis() {
    let a = CubicCircuit { x: Some(fe(3)) }.assign().unwrap();
    assert!(same(&a.x, &fe(3)));
    assert!(same(&a.x2, &fe(9)));
    assert!(same(&a.x3, &fe(27)));
    assert!(same(&a.out, &fe(35)));
    assert!(gates_hold(&a));
}

#[test]
fn cubic_gates_reject_tampered_cells() {
    let a = CubicCircuit { x: Some(fe(3)) }.assign().unwrap();
    let bad_x2 = CubicAssignment { x2: fe(10), ..a };
    assert!(!gates_hold(&bad_x2));
    let bad_x3 = CubicAssignment { x3: fe(26), ..a };
    assert!(!gates_hold(&bad_x3));
    let bad_out = CubicAssignment { out: fe(36), ..a };
    assert!(!gates_hold(&bad_out));
}

#[test]
fn cubic_unknown_witness_is_not_accepted() {
    let circuit = CubicCircuit::default();
    assert!(circuit.assign().is_none());
    assert!(!circuit.accepts(&[fe(35)]));
    assert!(circuit.without_witnesses().x.is_none());
}

#[test]
fn cubic_empty_instance_reads_zero() {
    // x^3 + x + 5 = 0 has no small solution; an empty instance column is zero.
    let circuit = CubicCircuit { x: Some(fe(3)) };
    assert!(!circuit.accepts(&[]));
    assert!(same(&first_instance(&[]), &Fe::zero()));
}

#[test]
fn cubic_wraps_around_the_modulus() {
    // x = -1: (-1)^3 + (-1) + 5 = 3.
    let minus_one = Fe::zero().sub(&Fe::one());
    let circuit = CubicCircuit { x: Some(minus_one) };
    assert!(circuit.accepts(&[fe(3)]));
}

#[test]
fn poseidon_unknown_preimage_is_not_accepted() {
    let (_, hash) = PoseidonCircuit::sample();
    assert!(!PoseidonCircuit::default().accepts(&[hash]));
    let (c, _) = PoseidonCircuit::sample();
    assert!(c.without_witnesses().preimage.is_none());
}

#[test]
fn poseidon_sample_digest_is_the_hash_of_one_and_two() {
    let (c, hash) = PoseidonCircuit::sample();
    let m = c.preimage.unwrap();
    assert!(same(&m[0], &fe(1)));
    assert!(same(&m[1], &fe(2)));
    assert!(same(&hash, &hash_pair(&fe(1), &fe(2))));
}

#[test]
fn merkle_sample_root_is_hashed_up_the_path() {
    let (c, root) = MerkleCircuit::sample();
    let mut cur = fe(42);
    for i in 0..MERKLE_DEPTH {
        let sib = fe(i as u64 + 1);
        cur = if i % 2 == 1 { hash_pair(&sib, &cur) } else { hash_pair(&cur, &sib) };
        assert!(same(&c.siblings[i].unwrap(), &sib));
        assert_eq!(c.positions[i], Some(i % 2 == 1));
    }
    assert!(same(&root, &cur));
}

#[test]
fn merkle_rows_follow_the_path() {
    let (c, root) = MerkleCircuit::sample();
    let rows = c.assign().unwrap();
    assert_eq!(rows.len(), MERKLE_DEPTH);
    assert!(same(&rows[0].cur, &fe(42)));
    for i in 0..MERKLE_DEPTH {
        let r = &rows[i];
        assert!(swap_gate_check(r));
        if i > 0 {
            assert!(same(&r.cur, &rows[i - 1].digest));
        }
        if i % 2 == 1 {
            assert!(same(&r.left, &r.sib) && same(&r.right, &r.cur));
            assert!(same(&r.bit, &Fe::one()));
        } else {
            assert!(same(&r.left, &r.cur) && same(&r.right, &r.sib));
            assert!(same(&r.bit, &Fe::zero()));
        }
    }
    assert!(same(&rows[MERKLE_DEPTH - 1].digest, &root));
    assert!(rows_satisfied(&rows, &root));
}

#[test]
fn merkle_rows_reject_tampering() {
    let (c, root) = MerkleCircuit::sample();
    let rows = c.assign().unwrap();
    // an unswapped pair at a right-child level
    let mut bad = rows.clone();
    bad[1] = SwapRow { left: rows[1].right, right: rows[1].left, ..rows[1] };
    assert!(!rows_satisfied(&bad, &root));
    // a broken copy between levels
    let mut bad = rows.clone();
    bad[3] = SwapRow { cur: fe(7), ..rows[3] };
    assert!(!rows_satisfied(&bad, &root));
    // a wrong digest
    let mut bad = rows.clone();
    bad[5] = SwapRow { digest: fe(7), ..rows[5] };
    assert!(!rows_satisfied(&bad, &root));
    // too few rows
    let mut bad = rows.clone();
    bad.pop();
    assert!(!rows_satisfied(&bad, &root));
}

#[test]
fn swap_gate_rejects_non_boolean_bit() {
    let (c, _) = MerkleCircuit::sample();
    let rows = c.assign().unwrap();
    let r = SwapRow { bit: fe(2), ..rows[0] };
    assert!(!swap_gate_check(&r));
}

#[test]
fn merkle_unknown_value_is_not_accepted() {
    let (c, root) = MerkleCircuit::sample();
    let mut partial = c;
    partial.siblings[4] = None;
    assert!(partial.assign().is_none());
    assert!(!partial.accepts(&[root]));
    let mut partial = c;
    partial.positions[7] = None;
    assert!(!partial.accepts(&[root]));
    let d = MerkleCircuit::default();
    assert!(d.leaf.is_none());
    assert!(d.siblings.iter().all(|s| s.is_none()));
    assert!(d.positions.iter().all(|p| p.is_none()));
    assert!(c.without_witnesses().leaf.is_none());
}

#[test]
fn merkle_flipped_position_changes_root() {
    let (c, root) = MerkleCircuit::sample();
    let mut flipped = c;
    flipped.positions[0] = Some(true);
    assert!(!flipped.accepts(&[root]));
}

#[test]
fn names_select_circuits() {
    assert_eq!(CircuitKind::from_name("poseidon"), CircuitKind::Poseidon);
    assert_eq!(CircuitKind::from_name("merkle"), CircuitKind::Merkle);
    assert_eq!(CircuitKind::from_name("cubic"), CircuitKind::Cubic);
    assert_eq!(CircuitKind::from_name("bogus"), CircuitKind::Cubic);
    assert_eq!(CircuitKind::from_name(""), CircuitKind::Cubic);
    assert_eq!(CircuitKind::from_name("Poseidon"), CircuitKind::Cubic);
    for k in [CircuitKind::Cubic, CircuitKind::Poseidon, CircuitKind::Merkle] {
        assert_eq!(CircuitKind::from_name(k.name()), k);
    }
    assert_eq!(CircuitKind::Merkle.name(), "merkle");
}

#[test]
fn default_k_per_circuit() {
    assert_eq!(default_k("poseidon"), POSEIDON_K);
    assert_eq!(default_k("merkle"), MERKLE_K);
    assert_eq!(default_k("cubic"), K);
    assert_eq!(default_k("anything"), 4);
    assert_eq!((K, POSEIDON_K, MERKLE_K), (4, 6, 9));
}

#[test]
fn samples_are_accepted_with_their_public_value() {
    for k in [CircuitKind::Cubic, CircuitKind::Poseidon, CircuitKind::Merkle] {
        let (c, public) = k.sample();
        assert!(c.accepts(&[public]));
        assert!(!c.accepts(&[public.add(&Fe::one())]));
    }
    match CircuitKind::Cubic.sample() {
        (SampleCircuit::Cubic(c), y) => {
            assert!(same(&c.x.unwrap(), &fe(3)));
            assert!(same(&y, &fe(35)));
        }
        _ => panic!("cubic sample"),
    }
}

#[test]
fn verify_instance_per_circuit() {
    let (k, public) = CircuitKind::Cubic.verify_instance(36);
    assert_eq!(k, 4);
    assert_eq!(public.len(), 1);
    assert!(same(&public[0], &fe(36)));
    let (k, public) = CircuitKind::Poseidon.verify_instance(36);
    assert_eq!(k, 6);
    assert!(same(&public[0], &PoseidonCircuit::sample().1));
    let (k, public) = CircuitKind::Merkle.verify_instance(36);
    assert_eq!(k, 9);
    assert!(same(&public[0], &MerkleCircuit::sample().1));
}

#[test]
fn standalone_verifier_instance() {
    let (k, p) = standalone_verify_instance("poseidon", 1);
    assert_eq!(k, POSEIDON_K);
    assert!(same(&p[0], &PoseidonCircuit::sample().1));
    let (k, p) = standalone_verify_instance("merkle", 36);
    assert_eq!(k, K);
    assert!(same(&p[0], &fe(36)));
    let (k, p) = standalone_verify_instance("cubic", 35);
    assert_eq!((k, p.len()), (K, 1));
    assert!(same(&p[0], &fe(35)));
}

#[test]
fn swap_gate_rejects_minus_one_bit() {
    let (c, _) = MerkleCircuit::sample();
    let rows = c.assign().unwrap();
    let minus_one = Fe::zero().sub(&Fe::one());
    let r = SwapRow { bit: minus_one, ..rows[0] };
    assert!(!swap_gate_check(&r));
}
