# zk_core

A small Halo2 proving kit over the Pallas base field `Fp`: a cubic circuit
(`x^3 + x + 5 = y`), a Poseidon preimage circuit and a depth-8 Poseidon
Merkle-membership circuit, with a benchmark harness, a web dashboard and a
standalone verifier.

- `src/` is the verified library: field elements and their arithmetic
  (delegated to `pasta_curves` and the Poseidon primitive of `halo2_gadgets`),
  each circuit's witness assignment and constraint check, with proofs that the
  honest assignment satisfies the gates and that satisfied gates give the
  circuit's statement (for the Merkle circuit, the boolean gate forces each
  position bit to be 0 or 1, which rests on p being prime: `src/prime_cert.rs`
  is a Lucas certificate for it, checked by Verus), circuit selection by name, the
  benchmark sweep, and the parsing of `/proc` text.
- `app/` is the program: the halo2 layouts (`Circuit` impls), the IPA proving
  and verification pipeline, the benchmark subprocesses, the axum server and
  the command line.
