//! The benchmark sweep, and the peak resident set size read from a process's
//! `/proc/self/status` text.

use crate::circuit::merkle::MERKLE_K;
use crate::circuit::poseidon::POSEIDON_K;
use crate::circuit::CircuitKind;
use crate::text::{
    find_line, first_line_with, lemma_first_line_with_at, lemma_first_line_with_none, lines,
    nth_word, parse_u64, parse_u64_bytes, starts_with, words,
};
use vstd::prelude::*;
use vstd::string::StringSliceAdditionalSpecFns;

verus! {

/// The default benchmark sweep: each circuit at its minimum synthesizable `k`
/// and one step larger (the cubic circuit at 4 and 8).
pub open spec fn sweep_points() -> Seq<(CircuitKind, u32)> {
    seq![
        (CircuitKind::Cubic, 4u32),
        (CircuitKind::Cubic, 8u32),
        (CircuitKind::Poseidon, POSEIDON_K),
        (CircuitKind::Poseidon, (POSEIDON_K + 1) as u32),
        (CircuitKind::Merkle, MERKLE_K),
        (CircuitKind::Merkle, (MERKLE_K + 1) as u32),
    ]
}

/// The default benchmark sweep, in order.
pub fn sweep() -> (r: Vec<(CircuitKind, u32)>)
    ensures
        r@ == sweep_points(),
{
    let mut v: Vec<(CircuitKind, u32)> = Vec::new();
    v.push((CircuitKind::Cubic, 4));
    v.push((CircuitKind::Cubic, 8));
    v.push((CircuitKind::Poseidon, POSEIDON_K));
    v.push((CircuitKind::Poseidon, POSEIDON_K + 1));
    v.push((CircuitKind::Merkle, MERKLE_K));
    v.push((CircuitKind::Merkle, MERKLE_K + 1));
    proof {
        assert(v@ =~= sweep_points());
    }
    v
}

/// The second word of the first line of `text` that begins with `p` or `q`,
/// read as a `u64`; `None` when there is no such line, it has fewer than two
/// words, or that word is not a `u64`.
pub open spec fn labelled_number(text: Seq<u8>, p: Seq<u8>, q: Seq<u8>) -> Option<u64> {
    match first_line_with(lines(text), p, q) {
        None => None,
        Some(line) => if words(line).len() > 1 {
            parse_u64(words(line)[1])
        } else {
            None
        },
    }
}

/// The `u64` that follows the label of the first line of `text` that begins
/// with `p` or `q`.
pub fn read_labelled_number(text: &[u8], p: &[u8], q: &[u8]) -> (r: Option<u64>)
    ensures
        r == labelled_number(text@, p@, q@),
{
    match find_line(text, p, q) {
        None => None,
        Some((a, b)) => {
            let line = &text[a..b];
            match nth_word(line, 1) {
                None => None,
                Some((x, y)) => parse_u64_bytes(&line[x..y]),
            }
        },
    }
}

/// The peak resident set size (`VmHWM`, in KiB) that a process's
/// `/proc/self/status` text reports; 0 when it reports none.
pub open spec fn peak_rss_kb_in(status: Seq<u8>) -> u64 {
    match labelled_number(status, "VmHWM".spec_bytes(), "VmHWM".spec_bytes()) {
        Some(v) => v,
        None => 0,
    }
}

/// The `u64` in the second whitespace-separated word of `line`, or 0 when it
/// has no second word or that word is not a `u64`.
pub open spec fn second_word_or_zero(line: Seq<u8>) -> u64 {
    if words(line).len() > 1 && parse_u64(words(line)[1]) is Some {
        parse_u64(words(line)[1])->0
    } else {
        0
    }
}

/// The peak resident set size comes from the first line that begins with
/// `VmHWM`, whatever lines (`VmPeak`, `VmSize`, ...) come before it: it is the
/// `u64` in that line's second word, or 0 when that word is missing or not a
/// number. No other line supplies it.
pub proof fn lemma_peak_rss_from_first_vmhwm_line(status: Seq<u8>, i: int)
    requires
        0 <= i < lines(status).len(),
        starts_with(lines(status)[i], "VmHWM".spec_bytes()),
        forall|j: int|
            0 <= j < i ==> !starts_with(#[trigger] lines(status)[j], "VmHWM".spec_bytes()),
    ensures
        peak_rss_kb_in(status) == second_word_or_zero(lines(status)[i]),
{
    lemma_first_line_with_at(lines(status), "VmHWM".spec_bytes(), "VmHWM".spec_bytes(), i);
}

/// Text with no line that begins with `VmHWM` reports a peak of 0.
pub proof fn lemma_peak_rss_without_vmhwm_line(status: Seq<u8>)
    requires
        forall|j: int|
            0 <= j < lines(status).len() ==> !starts_with(
                #[trigger] lines(status)[j],
                "VmHWM".spec_bytes(),
            ),
    ensures
        peak_rss_kb_in(status) == 0,
{
    lemma_first_line_with_none(lines(status), "VmHWM".spec_bytes(), "VmHWM".spec_bytes());
}

/// Reads the peak resident set size (KiB) from `/proc/self/status` text: the
/// second word of its first line that begins with `VmHWM`; 0 when that is
/// missing or not a number.
pub fn parse_peak_rss_kb(status: &str) -> (r: u64)
    ensures
        r == peak_rss_kb_in(status.spec_bytes()),
        forall|i: int|
            0 <= i < lines(status.spec_bytes()).len() && starts_with(
                #[trigger] lines(status.spec_bytes())[i],
                "VmHWM".spec_bytes(),
            ) && (forall|j: int|
                0 <= j < i ==> !starts_with(
                    #[trigger] lines(status.spec_bytes())[j],
                    "VmHWM".spec_bytes(),
                )) ==> r == second_word_or_zero(lines(status.spec_bytes())[i]),
        (forall|j: int|
            0 <= j < lines(status.spec_bytes()).len() ==> !starts_with(
                #[trigger] lines(status.spec_bytes())[j],
                "VmHWM".spec_bytes(),
            )) ==> r == 0,
{
    proof {
        let b = status.spec_bytes();
        assert forall|i: int|
            0 <= i < lines(b).len() && starts_with(#[trigger] lines(b)[i], "VmHWM".spec_bytes())
                && (forall|j: int|
                0 <= j < i ==> !starts_with(
                    #[trigger] lines(b)[j],
                    "VmHWM".spec_bytes(),
                )) implies peak_rss_kb_in(b) == second_word_or_zero(lines(b)[i]) by {
            lemma_peak_rss_from_first_vmhwm_line(b, i);
        }
        if forall|j: int|
            0 <= j < lines(b).len() ==> !starts_with(#[trigger] lines(b)[j], "VmHWM".spec_bytes()) {
            lemma_peak_rss_without_vmhwm_line(b);
        }
    }
    let label = "VmHWM".as_bytes();
    match read_labelled_number(status.as_bytes(), label, label) {
        Some(v) => v,
        None => 0,
    }
}

} // verus!
