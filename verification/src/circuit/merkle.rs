//! Poseidon Merkle-path membership: "I know a `leaf` and an authentication path
//! (siblings and position bits) such that hashing the leaf up the tree with
//! Poseidon yields the public `root`."
//!
//! Per level the running node is combined with its sibling through a
//! conditional swap driven by the position bit, and the swapped pair is hashed;
//! the last hash is the root.

use crate::circuit::{first_instance, instance_row0};
use crate::field::{
    fadd, fmul, fsub, hash_pair, lemma_bit_gate_boolean, lemma_fsub_is_fadd_inverse,
    lemma_fsub_zero, modulus, poseidon2, Fe,
};
use vstd::prelude::*;

verus! {

/// Tree depth: the number of hashes on the authentication path.
pub const MERKLE_DEPTH: usize = 8;

/// Smallest `k` at which a depth-`MERKLE_DEPTH` path synthesizes.
pub const MERKLE_K: u32 = 9;

/// The pair that is hashed at a level: the running node and its sibling, in
/// that order when the node is the left child (`pos == false`), swapped when it
/// is the right child.
pub open spec fn swapped(cur: nat, sib: nat, pos: bool) -> (nat, nat) {
    if pos {
        (sib, cur)
    } else {
        (cur, sib)
    }
}

/// The node reached after hashing `leaf` up the first `n` levels of the path.
pub open spec fn path_root(leaf: nat, sibs: Seq<nat>, pos: Seq<bool>, n: nat) -> nat
    decreases n,
{
    if n == 0 {
        leaf
    } else {
        let cur = path_root(leaf, sibs, pos, (n - 1) as nat);
        let lr = swapped(cur, sibs[n - 1], pos[n - 1]);
        poseidon2(lr.0, lr.1)
    }
}

/// The circuit's witness; a `None` is a value not known (key generation).
#[derive(Clone, Copy)]
pub struct MerkleCircuit {
    /// The private leaf value.
    pub leaf: Option<Fe>,
    /// The sibling at each level, bottom-up.
    pub siblings: [Option<Fe>; MERKLE_DEPTH],
    /// The position bit at each level (`false`: the running node is the left
    /// child).
    pub positions: [Option<bool>; MERKLE_DEPTH],
}

/// The cells of one level's swap row, and the digest that the Poseidon chip
/// produces from its `left` and `right`.
#[derive(Clone, Copy)]
pub struct SwapRow {
    /// Running node entering the level.
    pub cur: Fe,
    /// The authentication-path sibling.
    pub sib: Fe,
    /// The position bit as a field element.
    pub bit: Fe,
    /// Left input to the level's hash.
    pub left: Fe,
    /// Right input to the level's hash.
    pub right: Fe,
    /// The level's Poseidon digest.
    pub digest: Fe,
}

/// The conditional-swap gate's three polynomials vanish: `b * (b - 1)`,
/// `left - (cur + b * (sib - cur))` and `right - (sib + b * (cur - sib))`.
pub open spec fn swap_gate_holds(row: SwapRow) -> bool {
    let (c, s, b, l, r) = (row.cur@, row.sib@, row.bit@, row.left@, row.right@);
    &&& fmul(b, fsub(b, 1)) == 0
    &&& fsub(l, fadd(c, fmul(b, fsub(s, c)))) == 0
    &&& fsub(r, fadd(s, fmul(b, fsub(c, s)))) == 0
}

/// A level's constraints: its swap gate, and its digest is the Poseidon hash
/// of its swapped pair.
pub open spec fn level_holds(row: SwapRow) -> bool {
    swap_gate_holds(row) && row.digest@ == poseidon2(row.left@, row.right@)
}

/// Every constraint of the circuit holds on `rows` with `root` at row 0 of
/// the instance: each level's swap gate and hash, the copy of each level's
/// digest into the next level's running node, and the last digest is `root`.
pub open spec fn rows_satisfy(rows: Seq<SwapRow>, root: nat) -> bool {
    &&& rows.len() == MERKLE_DEPTH
    &&& forall|i: int| 0 <= i < rows.len() ==> level_holds(#[trigger] rows[i])
    &&& forall|i: int| 1 <= i < rows.len() ==> (#[trigger] rows[i]).cur@ == rows[i - 1].digest@
    &&& rows[rows.len() - 1].digest@ == root
}

/// The siblings that the rows hold.
pub open spec fn row_siblings(rows: Seq<SwapRow>) -> Seq<nat> {
    rows.map_values(|r: SwapRow| r.sib@)
}

/// The position bits that the rows hold (a bit is set when its value is one).
pub open spec fn row_positions(rows: Seq<SwapRow>) -> Seq<bool> {
    rows.map_values(|r: SwapRow| r.bit@ == 1)
}

/// The rows that synthesis assigns for the first `rows.len()` levels of the
/// path `leaf`, `sibs`, `pos`.
pub open spec fn honest_rows(rows: Seq<SwapRow>, leaf: nat, sibs: Seq<nat>, pos: Seq<bool>) -> bool {
    forall|i: int|
        0 <= i < rows.len() ==> {
            let row = #[trigger] rows[i];
            &&& row.cur@ == (if i == 0 {
                leaf
            } else {
                rows[i - 1].digest@
            })
            &&& row.sib@ == sibs[i]
            &&& row.bit@ == (if pos[i] {
                1nat
            } else {
                0nat
            })
            &&& (row.left@, row.right@) == swapped(row.cur@, row.sib@, pos[i])
            &&& row.digest@ == poseidon2(row.left@, row.right@)
        }
}

impl MerkleCircuit {
    /// Every value of the witness is known.
    pub open spec fn all_known(&self) -> bool {
        &&& self.leaf is Some
        &&& forall|i: int| 0 <= i < MERKLE_DEPTH ==> (#[trigger] self.siblings@[i]) is Some
        &&& forall|i: int| 0 <= i < MERKLE_DEPTH ==> (#[trigger] self.positions@[i]) is Some
    }

    /// The leaf's value (zero when unknown).
    pub open spec fn leaf_value(&self) -> nat {
        match self.leaf {
            Some(f) => f@,
            None => 0,
        }
    }

    /// The siblings' values (zero where unknown).
    pub open spec fn sibling_values(&self) -> Seq<nat> {
        self.siblings@.map_values(
            |o: Option<Fe>|
                match o {
                    Some(f) => f@,
                    None => 0,
                },
        )
    }

    /// The position bits (`false` where unknown).
    pub open spec fn position_values(&self) -> Seq<bool> {
        self.positions@.map_values(|o: Option<bool>| o == Some(true))
    }
}

/// The digest of each level is the path's node above it.
proof fn lemma_honest_rows_follow_path(
    rows: Seq<SwapRow>,
    leaf: nat,
    sibs: Seq<nat>,
    pos: Seq<bool>,
    i: int,
)
    requires
        honest_rows(rows, leaf, sibs, pos),
        0 <= i < rows.len(),
    ensures
        rows[i].digest@ == path_root(leaf, sibs, pos, (i + 1) as nat),
    decreases i,
{
    if i > 0 {
        lemma_honest_rows_follow_path(rows, leaf, sibs, pos, i - 1);
    }
    let row = rows[i];
    assert(row.cur@ == path_root(leaf, sibs, pos, i as nat));
}

/// For a bit `b` (0 or 1), the value `c + b * (s - c)` is `c` when `b` is 0
/// and `s` when `b` is 1, and `b * (b - 1)` is 0.
proof fn lemma_select_expression(c: nat, s: nat, b: nat)
    requires
        c < modulus(),
        s < modulus(),
        b == 0 || b == 1,
    ensures
        fadd(c, fmul(b, fsub(s, c))) == (if b == 1 {
            s
        } else {
            c
        }),
        fmul(b, fsub(b, 1)) == 0,
{
    let p = modulus();
    let d = fsub(s, c);
    if b == 0 {
        assert(fmul(0, d) == 0);
        vstd::arithmetic::div_mod::lemma_small_mod(c, p);
        assert(fmul(0, fsub(0, 1)) == 0);
    } else {
        vstd::arithmetic::div_mod::lemma_small_mod(d, p);
        assert(fmul(1, d) == d);
        lemma_fsub_is_fadd_inverse(s, c, d);
        lemma_fsub_zero(1, 1);
        assert(fmul(1, 0) == 0);
    }
}

/// A boolean bit with the honestly swapped pair satisfies the swap gate.
pub proof fn lemma_swap_gate_complete(row: SwapRow)
    requires
        row.bit@ == 0 || row.bit@ == 1,
        (row.left@, row.right@) == swapped(row.cur@, row.sib@, row.bit@ == 1),
    ensures
        swap_gate_holds(row),
{
    row.cur.lemma_below_modulus();
    row.sib.lemma_below_modulus();
    row.left.lemma_below_modulus();
    row.right.lemma_below_modulus();
    lemma_select_expression(row.cur@, row.sib@, row.bit@);
    lemma_select_expression(row.sib@, row.cur@, row.bit@);
    lemma_fsub_zero(row.left@, row.left@);
    lemma_fsub_zero(row.right@, row.right@);
}

/// The swap gate forces the bit to be 0 or 1 and the pair to be the honestly
/// swapped one.
pub proof fn lemma_swap_gate_sound(row: SwapRow)
    requires
        swap_gate_holds(row),
    ensures
        row.bit@ == 0 || row.bit@ == 1,
        (row.left@, row.right@) == swapped(row.cur@, row.sib@, row.bit@ == 1),
{
    row.bit.lemma_below_modulus();
    lemma_bit_gate_boolean(row.bit@);
    row.cur.lemma_below_modulus();
    row.sib.lemma_below_modulus();
    row.left.lemma_below_modulus();
    row.right.lemma_below_modulus();
    lemma_select_expression(row.cur@, row.sib@, row.bit@);
    lemma_select_expression(row.sib@, row.cur@, row.bit@);
    lemma_fsub_zero(row.left@, fadd(row.cur@, fmul(row.bit@, fsub(row.sib@, row.cur@))));
    lemma_fsub_zero(row.right@, fadd(row.sib@, fmul(row.bit@, fsub(row.cur@, row.sib@))));
}

/// The swap gate holds exactly when the bit is 0 or 1 and the pair is the
/// running node and the sibling, swapped when the bit is 1.
pub proof fn lemma_swap_gate_exact(row: SwapRow)
    ensures
        swap_gate_holds(row) <==> ((row.bit@ == 0 || row.bit@ == 1) && (row.left@, row.right@)
            == swapped(row.cur@, row.sib@, row.bit@ == 1)),
{
    if swap_gate_holds(row) {
        lemma_swap_gate_sound(row);
    }
    if (row.bit@ == 0 || row.bit@ == 1) && (row.left@, row.right@) == swapped(
        row.cur@,
        row.sib@,
        row.bit@ == 1,
    ) {
        lemma_swap_gate_complete(row);
    }
}

/// Rows that satisfy every constraint prove membership: every position bit is
/// 0 or 1, and the public root is the root of the path from the first row's
/// running node through the rows' siblings and position bits.
pub proof fn lemma_satisfied_rows_prove_membership(rows: Seq<SwapRow>, root: nat)
    requires
        rows_satisfy(rows, root),
    ensures
        forall|i: int| 0 <= i < rows.len() ==> (#[trigger] rows[i]).bit@ == 0 || rows[i].bit@ == 1,
        root == path_root(
            rows[0].cur@,
            row_siblings(rows),
            row_positions(rows),
            MERKLE_DEPTH as nat,
        ),
{
    let sibs = row_siblings(rows);
    let pos = row_positions(rows);
    assert forall|i: int| 0 <= i < rows.len() implies {
        let row = #[trigger] rows[i];
        &&& row.cur@ == (if i == 0 {
            rows[0].cur@
        } else {
            rows[i - 1].digest@
        })
        &&& row.sib@ == sibs[i]
        &&& row.bit@ == (if pos[i] {
            1nat
        } else {
            0nat
        })
        &&& (row.left@, row.right@) == swapped(row.cur@, row.sib@, pos[i])
        &&& row.digest@ == poseidon2(row.left@, row.right@)
    } by {
        assert(level_holds(rows[i]));
        lemma_swap_gate_sound(rows[i]);
    }
    assert forall|i: int| 0 <= i < rows.len() implies (#[trigger] rows[i]).bit@ == 0
        || rows[i].bit@ == 1 by {
        assert(level_holds(rows[i]));
        lemma_swap_gate_sound(rows[i]);
    }
    assert(honest_rows(rows, rows[0].cur@, sibs, pos));
    lemma_honest_rows_follow_path(rows, rows[0].cur@, sibs, pos, rows.len() - 1);
}

/// Whether the swap gate's three polynomials vanish on `row`.
pub fn swap_gate_check(row: &SwapRow) -> (r: bool)
    ensures
        r == swap_gate_holds(*row),
{
    let one = Fe::one();
    let zero = Fe::zero();
    let g0 = row.bit.mul(&row.bit.sub(&one));
    let g1 = row.left.sub(&row.cur.add(&row.bit.mul(&row.sib.sub(&row.cur))));
    let g2 = row.right.sub(&row.sib.add(&row.bit.mul(&row.cur.sub(&row.sib))));
    g0.equals(&zero) && g1.equals(&zero) && g2.equals(&zero)
}

/// Whether every constraint of the circuit holds on `rows` with `root` at row
/// 0 of the instance column.
pub fn rows_satisfied(rows: &Vec<SwapRow>, root: &Fe) -> (r: bool)
    ensures
        r == rows_satisfy(rows@, root@),
{
    if rows.len() != MERKLE_DEPTH {
        return false;
    }
    let mut i: usize = 0;
    while i < rows.len()
        invariant
            rows@.len() == MERKLE_DEPTH,
            0 <= i <= rows@.len(),
            forall|j: int| 0 <= j < i ==> level_holds(#[trigger] rows@[j]),
            forall|j: int| 1 <= j < i ==> (#[trigger] rows@[j]).cur@ == rows@[j - 1].digest@,
        decreases rows@.len() - i,
    {
        let row = &rows[i];
        if !swap_gate_check(row) {
            return false;
        }
        if !row.digest.equals(&hash_pair(&row.left, &row.right)) {
            return false;
        }
        if i > 0 && !row.cur.equals(&rows[i - 1].digest) {
            return false;
        }
        i = i + 1;
    }
    rows[MERKLE_DEPTH - 1].digest.equals(root)
}

/// The sample path's siblings: `1, 2, ..., MERKLE_DEPTH` bottom-up.
pub open spec fn sample_siblings() -> Seq<nat> {
    Seq::new(MERKLE_DEPTH as nat, |i: int| (i + 1) as nat)
}

/// The sample path's position bits: alternately left and right child, starting
/// with left.
pub open spec fn sample_positions() -> Seq<bool> {
    Seq::new(MERKLE_DEPTH as nat, |i: int| i % 2 == 1)
}

/// The witness with every value unknown.
fn unknown_witness() -> (r: MerkleCircuit)
    ensures
        r.leaf is None,
        forall|i: int| 0 <= i < MERKLE_DEPTH ==> (#[trigger] r.siblings@[i]) is None,
        forall|i: int| 0 <= i < MERKLE_DEPTH ==> (#[trigger] r.positions@[i]) is None,
{
    let siblings: [Option<Fe>; MERKLE_DEPTH] = [None, None, None, None, None, None, None, None];
    let positions: [Option<bool>; MERKLE_DEPTH] = [None; MERKLE_DEPTH];
    MerkleCircuit { leaf: None, siblings, positions }
}

impl MerkleCircuit {
    /// A circuit with no witness.
    pub fn without_witnesses(&self) -> (r: MerkleCircuit)
        ensures
            r.leaf is None,
            forall|i: int| 0 <= i < MERKLE_DEPTH ==> (#[trigger] r.siblings@[i]) is None,
            forall|i: int| 0 <= i < MERKLE_DEPTH ==> (#[trigger] r.positions@[i]) is None,
    {
        unknown_witness()
    }

    /// The circuit for a fixed, known membership witness (leaf 42, the sample
    /// siblings and positions), with the Merkle root that must be supplied as
    /// its public instance.
    pub fn sample() -> (r: (MerkleCircuit, Fe))
        ensures
            r.0.all_known(),
            r.0.leaf_value() == 42,
            r.0.sibling_values() == sample_siblings(),
            r.0.position_values() == sample_positions(),
            r.1@ == path_root(42, sample_siblings(), sample_positions(), MERKLE_DEPTH as nat),
    {
        let leaf = Fe::from_u64(42);
        let mut siblings: [Option<Fe>; MERKLE_DEPTH] = [None, None, None, None, None, None, None, None];
        let mut positions: [Option<bool>; MERKLE_DEPTH] = [None; MERKLE_DEPTH];
        let mut cur = leaf;
        let mut i: usize = 0;
        while i < MERKLE_DEPTH
            invariant
                0 <= i <= MERKLE_DEPTH,
                leaf@ == 42,
                cur@ == path_root(42, sample_siblings(), sample_positions(), i as nat),
                forall|j: int|
                    0 <= j < i ==> ((#[trigger] siblings@[j]) matches Some(f) && f@ == j + 1),
                forall|j: int| 0 <= j < i ==> (#[trigger] positions@[j]) == Some(j % 2 == 1),
            decreases MERKLE_DEPTH - i,
        {
            let sib = Fe::from_u64(i as u64 + 1);
            let pos = i % 2 == 1;
            siblings[i] = Some(sib);
            positions[i] = Some(pos);
            cur = if pos {
                hash_pair(&sib, &cur)
            } else {
                hash_pair(&cur, &sib)
            };
            i = i + 1;
        }
        let circuit = MerkleCircuit { leaf: Some(leaf), siblings, positions };
        proof {
            assert(circuit.sibling_values() =~= sample_siblings());
            assert(circuit.position_values() =~= sample_positions());
        }
        (circuit, cur)
    }

    /// The rows that synthesis assigns, level by level from the leaf: the
    /// running node, the sibling, the bit, the swapped pair and its digest,
    /// which becomes the next level's running node. `None` when any value of
    /// the witness is unknown. The rows satisfy every gate, and the last digest
    /// is the path's root.
    pub fn assign(&self) -> (r: Option<Vec<SwapRow>>)
        ensures
            r is None <==> !self.all_known(),
            r matches Some(rows) ==> {
                &&& rows@.len() == MERKLE_DEPTH
                &&& honest_rows(
                    rows@,
                    self.leaf_value(),
                    self.sibling_values(),
                    self.position_values(),
                )
                &&& forall|i: int| 0 <= i < rows@.len() ==> level_holds(#[trigger] rows@[i])
                &&& rows_satisfy(
                    rows@,
                    path_root(
                        self.leaf_value(),
                        self.sibling_values(),
                        self.position_values(),
                        MERKLE_DEPTH as nat,
                    ),
                )
            },
    {
        let leaf = match self.leaf {
            None => return None,
            Some(l) => l,
        };
        let ghost sibs = self.sibling_values();
        let ghost pos = self.position_values();
        let mut rows: Vec<SwapRow> = Vec::new();
        let mut cur = leaf;
        let mut level: usize = 0;
        while level < MERKLE_DEPTH
            invariant
                self.leaf == Some(leaf),
                sibs == self.sibling_values(),
                pos == self.position_values(),
                0 <= level <= MERKLE_DEPTH,
                rows@.len() == level,
                forall|j: int| 0 <= j < level ==> (#[trigger] self.siblings@[j]) is Some,
                forall|j: int| 0 <= j < level ==> (#[trigger] self.positions@[j]) is Some,
                honest_rows(rows@, leaf@, sibs, pos),
                cur@ == (if level == 0 {
                    leaf@
                } else {
                    rows@[level - 1].digest@
                }),
            decreases MERKLE_DEPTH - level,
        {
            let sib = match self.siblings[level] {
                None => return None,
                Some(s) => s,
            };
            let p = match self.positions[level] {
                None => return None,
                Some(p) => p,
            };
            let bit = Fe::from_bool(p);
            let (left, right) = if p {
                (sib, cur)
            } else {
                (cur, sib)
            };
            let digest = hash_pair(&left, &right);
            let row = SwapRow { cur, sib, bit, left, right, digest };
            let ghost old_rows = rows@;
            rows.push(row);
            proof {
                assert(sibs[level as int] == sib@);
                assert(pos[level as int] == p);
                assert forall|j: int| 0 <= j < rows@.len() implies {
                    let row = #[trigger] rows@[j];
                    &&& row.cur@ == (if j == 0 {
                        leaf@
                    } else {
                        rows@[j - 1].digest@
                    })
                    &&& row.sib@ == sibs[j]
                    &&& row.bit@ == (if pos[j] {
                        1nat
                    } else {
                        0nat
                    })
                    &&& (row.left@, row.right@) == swapped(row.cur@, row.sib@, pos[j])
                    &&& row.digest@ == poseidon2(row.left@, row.right@)
                } by {
                    if j < level {
                        assert(rows@[j] == old_rows[j]);
                    }
                }
            }
            cur = digest;
            level = level + 1;
        }
        proof {
            let rs = rows@;
            assert forall|i: int| 0 <= i < rs.len() implies level_holds(#[trigger] rs[i]) by {
                lemma_swap_gate_complete(rs[i]);
            }
            lemma_honest_rows_follow_path(rs, leaf@, sibs, pos, rs.len() - 1);
        }
        Some(rows)
    }

    /// Whether the circuit's constraints are satisfied with `public` in its
    /// instance column: the whole witness is known, and hashing the leaf up
    /// the path gives the value at row 0.
    pub fn accepts(&self, public: &[Fe]) -> (r: bool)
        ensures
            r == (self.all_known() && path_root(
                self.leaf_value(),
                self.sibling_values(),
                self.position_values(),
                MERKLE_DEPTH as nat,
            ) == instance_row0(public@)),
    {
        match self.assign() {
            None => false,
            Some(rows) => rows_satisfied(&rows, &first_instance(public)),
        }
    }
}

impl Default for MerkleCircuit {
    fn default() -> (r: MerkleCircuit)
        ensures
            r.leaf is None,
            forall|i: int| 0 <= i < MERKLE_DEPTH ==> (#[trigger] r.siblings@[i]) is None,
            forall|i: int| 0 <= i < MERKLE_DEPTH ==> (#[trigger] r.positions@[i]) is None,
    {
        unknown_witness()
    }
}

} // verus!
