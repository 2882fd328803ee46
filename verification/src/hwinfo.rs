//! Host facts read from `/proc` text: the CPU model and the total memory.

use crate::bench::{labelled_number, read_labelled_number};
use crate::text::{
    find_line, find_second_colon_field, first_line_with, lemma_first_line_with_at,
    lemma_first_line_with_none, lines, parse_u64, second_colon_field, starts_with, trim,
    trim_range, words,
};
use vstd::prelude::*;
use vstd::string::StringSliceAdditionalSpecFns;

verus! {

/// The CPU model that `/proc/cpuinfo` text names: the first line that begins
/// with `model name` or `Model`, its text after the first colon (up to any
/// further colon), without surrounding whitespace.
pub open spec fn cpu_model_in(cpuinfo: Seq<u8>) -> Option<Seq<u8>> {
    match first_line_with(lines(cpuinfo), "model name".spec_bytes(), "Model".spec_bytes()) {
        None => None,
        Some(line) => match second_colon_field(line) {
            None => None,
            Some(field) => Some(trim(field)),
        },
    }
}

/// A line of `/proc/cpuinfo` that names the CPU model.
pub open spec fn names_model(line: Seq<u8>) -> bool {
    starts_with(line, "model name".spec_bytes()) || starts_with(line, "Model".spec_bytes())
}

/// What a model line gives: its text after the first colon, up to any further
/// colon, without surrounding whitespace; nothing without a colon.
pub open spec fn model_of_line(line: Seq<u8>) -> Option<Seq<u8>> {
    match second_colon_field(line) {
        None => None,
        Some(field) => Some(trim(field)),
    }
}

/// The CPU model comes from the first line, in text order, that begins with
/// `model name` or with `Model`, whatever later lines hold; no other line
/// supplies it.
pub proof fn lemma_cpu_model_from_first_model_line(cpuinfo: Seq<u8>, i: int)
    requires
        0 <= i < lines(cpuinfo).len(),
        names_model(lines(cpuinfo)[i]),
        forall|j: int| 0 <= j < i ==> !names_model(#[trigger] lines(cpuinfo)[j]),
    ensures
        cpu_model_in(cpuinfo) == model_of_line(lines(cpuinfo)[i]),
{
    let ls = lines(cpuinfo);
    assert forall|j: int| 0 <= j < i implies !starts_with(#[trigger] ls[j], "model name".spec_bytes())
        && !starts_with(ls[j], "Model".spec_bytes()) by {
        assert(!names_model(ls[j]));
    }
    lemma_first_line_with_at(ls, "model name".spec_bytes(), "Model".spec_bytes(), i);
}

/// Text with no line that begins with `model name` or `Model` names no model.
pub proof fn lemma_cpu_model_without_model_line(cpuinfo: Seq<u8>)
    requires
        forall|j: int| 0 <= j < lines(cpuinfo).len() ==> !names_model(#[trigger] lines(cpuinfo)[j]),
    ensures
        cpu_model_in(cpuinfo) is None,
{
    let ls = lines(cpuinfo);
    assert forall|j: int| 0 <= j < ls.len() implies !starts_with(#[trigger] ls[j], "model name".spec_bytes())
        && !starts_with(ls[j], "Model".spec_bytes()) by {
        assert(!names_model(ls[j]));
    }
    lemma_first_line_with_none(ls, "model name".spec_bytes(), "Model".spec_bytes());
}

/// Reads the CPU model (as UTF-8 bytes) from `/proc/cpuinfo` text.
pub fn parse_cpu_model(cpuinfo: &str) -> (r: Option<Vec<u8>>)
    ensures
        match r {
            None => cpu_model_in(cpuinfo.spec_bytes()) is None,
            Some(v) => cpu_model_in(cpuinfo.spec_bytes()) == Some(v@),
        },
        forall|i: int|
            0 <= i < lines(cpuinfo.spec_bytes()).len() && names_model(
                #[trigger] lines(cpuinfo.spec_bytes())[i],
            ) && (forall|j: int|
                0 <= j < i ==> !names_model(#[trigger] lines(cpuinfo.spec_bytes())[j]))
                ==> match r {
                None => model_of_line(lines(cpuinfo.spec_bytes())[i]) is None,
                Some(v) => model_of_line(lines(cpuinfo.spec_bytes())[i]) == Some(v@),
            },
        (forall|j: int|
            0 <= j < lines(cpuinfo.spec_bytes()).len() ==> !names_model(
                #[trigger] lines(cpuinfo.spec_bytes())[j],
            )) ==> r is None,
{
    proof {
        let b = cpuinfo.spec_bytes();
        assert forall|i: int|
            0 <= i < lines(b).len() && names_model(#[trigger] lines(b)[i]) && (forall|j: int|
                0 <= j < i ==> !names_model(#[trigger] lines(b)[j])) implies cpu_model_in(b)
            == model_of_line(lines(b)[i]) by {
            lemma_cpu_model_from_first_model_line(b, i);
        }
        if forall|j: int| 0 <= j < lines(b).len() ==> !names_model(#[trigger] lines(b)[j]) {
            lemma_cpu_model_without_model_line(b);
        }
    }
    let text = cpuinfo.as_bytes();
    match find_line(text, "model name".as_bytes(), "Model".as_bytes()) {
        None => None,
        Some((a, b)) => {
            let line = &text[a..b];
            match find_second_colon_field(line) {
                None => None,
                Some((x, y)) => {
                    let field = &line[x..y];
                    let (u, w) = trim_range(field);
                    Some(vstd::slice::slice_to_vec(&field[u..w]))
                },
            }
        },
    }
}

/// The total memory, in MiB, that `/proc/meminfo` text reports: the second
/// word of its first `MemTotal` line, in KiB, divided by 1024.
pub open spec fn ram_mb_in(meminfo: Seq<u8>) -> Option<u64> {
    match labelled_number(meminfo, "MemTotal".spec_bytes(), "MemTotal".spec_bytes()) {
        Some(kb) => Some(kb / 1024),
        None => None,
    }
}

/// The total memory comes from the first line that begins with `MemTotal`:
/// the `u64` in its second word, in KiB, divided by 1024; nothing when that
/// word is missing or not a number. No other line supplies it.
pub proof fn lemma_ram_from_first_memtotal_line(meminfo: Seq<u8>, i: int)
    requires
        0 <= i < lines(meminfo).len(),
        starts_with(lines(meminfo)[i], "MemTotal".spec_bytes()),
        forall|j: int|
            0 <= j < i ==> !starts_with(#[trigger] lines(meminfo)[j], "MemTotal".spec_bytes()),
    ensures
        ram_mb_in(meminfo) == (if words(lines(meminfo)[i]).len() > 1 && parse_u64(
            words(lines(meminfo)[i])[1],
        ) is Some {
            Some(parse_u64(words(lines(meminfo)[i])[1])->0 / 1024)
        } else {
            None
        }),
{
    lemma_first_line_with_at(lines(meminfo), "MemTotal".spec_bytes(), "MemTotal".spec_bytes(), i);
}

/// Text with no line that begins with `MemTotal` reports no total.
pub proof fn lemma_ram_without_memtotal_line(meminfo: Seq<u8>)
    requires
        forall|j: int|
            0 <= j < lines(meminfo).len() ==> !starts_with(
                #[trigger] lines(meminfo)[j],
                "MemTotal".spec_bytes(),
            ),
    ensures
        ram_mb_in(meminfo) is None,
{
    lemma_first_line_with_none(lines(meminfo), "MemTotal".spec_bytes(), "MemTotal".spec_bytes());
}

/// Reads the total memory (MiB) from `/proc/meminfo` text.
pub fn parse_ram_mb(meminfo: &str) -> (r: Option<u64>)
    ensures
        r == ram_mb_in(meminfo.spec_bytes()),
        forall|i: int|
            0 <= i < lines(meminfo.spec_bytes()).len() && starts_with(
                #[trigger] lines(meminfo.spec_bytes())[i],
                "MemTotal".spec_bytes(),
            ) && (forall|j: int|
                0 <= j < i ==> !starts_with(
                    #[trigger] lines(meminfo.spec_bytes())[j],
                    "MemTotal".spec_bytes(),
                )) ==> r == (if words(lines(meminfo.spec_bytes())[i]).len() > 1 && parse_u64(
                words(lines(meminfo.spec_bytes())[i])[1],
            ) is Some {
                Some(parse_u64(words(lines(meminfo.spec_bytes())[i])[1])->0 / 1024)
            } else {
                None
            }),
        (forall|j: int|
            0 <= j < lines(meminfo.spec_bytes()).len() ==> !starts_with(
                #[trigger] lines(meminfo.spec_bytes())[j],
                "MemTotal".spec_bytes(),
            )) ==> r is None,
{
    proof {
        let b = meminfo.spec_bytes();
        assert forall|i: int|
            0 <= i < lines(b).len() && starts_with(#[trigger] lines(b)[i], "MemTotal".spec_bytes())
                && (forall|j: int|
                0 <= j < i ==> !starts_with(
                    #[trigger] lines(b)[j],
                    "MemTotal".spec_bytes(),
                )) implies ram_mb_in(b) == (if words(lines(b)[i]).len() > 1 && parse_u64(
            words(lines(b)[i])[1],
        ) is Some {
            Some(parse_u64(words(lines(b)[i])[1])->0 / 1024)
        } else {
            None
        }) by {
            lemma_ram_from_first_memtotal_line(b, i);
        }
        if forall|j: int|
            0 <= j < lines(b).len() ==> !starts_with(#[trigger] lines(b)[j], "MemTotal".spec_bytes()) {
            lemma_ram_without_memtotal_line(b);
        }
    }
    let label = "MemTotal".as_bytes();
    match read_labelled_number(meminfo.as_bytes(), label, label) {
        Some(kb) => Some(kb / 1024),
        None => None,
    }
}

} // verus!
