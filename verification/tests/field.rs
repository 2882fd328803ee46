use zk_core::field::{hash_pair, Fe};

fn fe(n: u64) -> Fe {
    Fe::from_u64(n)
}

/// p = 0x40000000000000000000000000000000224698fc094cf91b992d30ed00000001, little-endian.
fn modulus_bytes() -> [u8; 32] {
    let mut b = [0u8; 32];
    b[0..8].copy_from_slice(&0x992d30ed00000001u64.to_le_bytes());
    b[8..16].copy_from_slice(&0x224698fc094cf91bu64.to_le_bytes());
    b[24..32].copy_from_slice(&0x4000000000000000u64.to_le_bytes());
    b
}

#[test]
fn small_values_encode_little_endian() {
    let r = fe(0x0102).to_repr();
    assert_eq!(r[0], 0x02);
    assert_eq!(r[1], 0x01);
    assert!(r[2..].iter().all(|b| *b == 0));
    assert_eq!(Fe::zero().to_repr(), [0u8; 32]);
    assert_eq!(Fe::from_bool(true).to_repr(), Fe::one().to_repr());
    assert_eq!(Fe::from_bool(false).to_repr(), Fe::zero().to_repr());
}

#[test]
fn arithmetic_on_small_values() {
    assert!(fe(2).add(&fe(3)).equals(&fe(5)));
    assert!(fe(7).sub(&fe(3)).equals(&fe(4)));
    assert!(fe(6).mul(&fe(7)).equals(&fe(42)));
    assert!(fe(u64::MAX).mul(&fe(u64::MAX)).sub(&fe(u64::MAX).mul(&fe(u64::MAX))).equals(&Fe::zero()));
}

#[test]
fn subtraction_wraps_to_modulus_minus_one() {
    let m1 = Fe::zero().sub(&Fe::one());
    let mut expected = modulus_bytes();
    expected[0] -= 1;
    assert_eq!(m1.to_repr(), expected);
    assert!(m1.add(&Fe::one()).equals(&Fe::zero()));
}

#[test]
fn equality_is_on_values() {
    assert!(fe(9).equals(&fe(3).mul(&fe(3))));
    assert!(!fe(9).equals(&fe(10)));
}

#[test]
fn from_repr_accepts_exactly_values_below_the_modulus() {
    assert!(Fe::from_repr(modulus_bytes()).is_none());
    let mut below = modulus_bytes();
    below[0] -= 1;
    let f = Fe::from_repr(below).unwrap();
    assert_eq!(f.to_repr(), below);
    assert!(Fe::from_repr([0xff; 32]).is_none());
    assert!(Fe::from_repr(fe(77).to_repr()).unwrap().equals(&fe(77)));
}

#[test]
fn poseidon_known_answer() {
    // Orchard Poseidon test vector: hash([0, 1]).
    let expected: [u8; 32] = [
        0x83, 0x58, 0xd7, 0x11, 0xa0, 0x32, 0x9d, 0x38, 0xbe, 0xcd, 0x54, 0xfb, 0xa7, 0xc2, 0x83,
        0xed, 0x3e, 0x08, 0x9a, 0x39, 0xc9, 0x1b, 0x6a, 0x9d, 0x10, 0xef, 0xb0, 0x2b, 0xc3, 0xf1,
        0x2f, 0x06,
    ];
    let h = hash_pair(&Fe::zero(), &Fe::one());
    assert_eq!(h.to_repr(), expected);
}

#[test]
fn poseidon_is_order_sensitive_and_not_the_identity() {
    let a = hash_pair(&fe(1), &fe(2));
    let b = hash_pair(&fe(2), &fe(1));
    assert!(!a.equals(&b));
    assert!(!a.equals(&fe(1)) && !a.equals(&fe(2)));
    assert!(a.equals(&hash_pair(&fe(1), &fe(2))));
}
