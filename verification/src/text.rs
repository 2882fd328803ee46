//! Reading values out of `/proc`-style text: its lines, the whitespace-separated
//! words of a line, and decimal numbers.
//!
//! Everything here works on the UTF-8 encoding of a string. Whitespace is what
//! `char::is_whitespace` accepts (Unicode `White_Space`): the single bytes for
//! tab, line feed, vertical tab, form feed, carriage return and space, and the
//! encodings of U+0085, U+00A0, U+1680, U+2000 to U+200A, U+2028, U+2029,
//! U+202F, U+205F and U+3000. Each of those encodings begins with a byte that
//! never occurs inside another character's encoding, so on the bytes of a
//! string, looking for them byte by byte finds exactly the whitespace
//! characters, and `lines`, `words` and `trim` below are what `str::lines`,
//! `str::split_whitespace` and `str::trim` give.

use vstd::prelude::*;

verus! {

/// A byte that is a whitespace character on its own.
pub open spec fn is_ascii_space(b: u8) -> bool {
    b == 9 || b == 10 || b == 11 || b == 12 || b == 13 || b == 32
}

/// The three bytes encode a whitespace character: U+1680, U+2000 to U+200A,
/// U+2028, U+2029, U+202F, U+205F or U+3000.
pub open spec fn is_space3(a: u8, b: u8, c: u8) -> bool {
    ||| (a == 0xe1 && b == 0x9a && c == 0x80)
    ||| (a == 0xe2 && b == 0x80 && ((0x80 <= c && c <= 0x8a) || c == 0xa8 || c == 0xa9 || c
        == 0xaf))
    ||| (a == 0xe2 && b == 0x81 && c == 0x9f)
    ||| (a == 0xe3 && b == 0x80 && c == 0x80)
}

/// The length in bytes of the whitespace character whose encoding starts at
/// `s[i]`, or 0 when none does (U+0085 and U+00A0 take two bytes).
pub open spec fn space_at(s: Seq<u8>, i: int) -> int {
    if i < 0 || i >= s.len() {
        0
    } else if is_ascii_space(s[i]) {
        1
    } else if i + 1 < s.len() && s[i] == 0xc2 && (s[i + 1] == 0x85 || s[i + 1] == 0xa0) {
        2
    } else if i + 2 < s.len() && is_space3(s[i], s[i + 1], s[i + 2]) {
        3
    } else {
        0
    }
}

/// The length in bytes of the whitespace character whose encoding ends just
/// before `s[e]`, or 0 when none does.
pub open spec fn space_before(s: Seq<u8>, e: int) -> int {
    if e < 1 || e > s.len() {
        0
    } else if is_ascii_space(s[e - 1]) {
        1
    } else if e >= 2 && s[e - 2] == 0xc2 && (s[e - 1] == 0x85 || s[e - 1] == 0xa0) {
        2
    } else if e >= 3 && is_space3(s[e - 3], s[e - 2], s[e - 1]) {
        3
    } else {
        0
    }
}

/// The length of the whitespace character that starts at `s[i]`, or 0.
fn space_len(s: &[u8], i: usize) -> (r: usize)
    ensures
        r == space_at(s@, i as int),
        r <= 3,
{
    let n = s.len();
    if i >= n {
        return 0;
    }
    let a = s[i];
    if a == 9 || a == 10 || a == 11 || a == 12 || a == 13 || a == 32 {
        return 1;
    }
    if i + 1 < n && a == 0xc2 && (s[i + 1] == 0x85 || s[i + 1] == 0xa0) {
        return 2;
    }
    if n - i > 2 {
        let b = s[i + 1];
        let c = s[i + 2];
        if (a == 0xe1 && b == 0x9a && c == 0x80) || (a == 0xe2 && b == 0x80 && ((0x80 <= c && c
            <= 0x8a) || c == 0xa8 || c == 0xa9 || c == 0xaf)) || (a == 0xe2 && b == 0x81 && c
            == 0x9f) || (a == 0xe3 && b == 0x80 && c == 0x80) {
            return 3;
        }
    }
    0
}

/// The length of the whitespace character that ends just before `s[e]`, or 0.
fn space_len_before(s: &[u8], e: usize) -> (r: usize)
    requires
        e <= s@.len(),
    ensures
        r == space_before(s@, e as int),
        r <= e,
{
    if e < 1 {
        return 0;
    }
    let z = s[e - 1];
    if z == 9 || z == 10 || z == 11 || z == 12 || z == 13 || z == 32 {
        return 1;
    }
    if e >= 2 && s[e - 2] == 0xc2 && (z == 0x85 || z == 0xa0) {
        return 2;
    }
    if e >= 3 {
        let a = s[e - 3];
        let b = s[e - 2];
        let c = z;
        if (a == 0xe1 && b == 0x9a && c == 0x80) || (a == 0xe2 && b == 0x80 && ((0x80 <= c && c
            <= 0x8a) || c == 0xa8 || c == 0xa9 || c == 0xaf)) || (a == 0xe2 && b == 0x81 && c
            == 0x9f) || (a == 0xe3 && b == 0x80 && c == 0x80) {
            return 3;
        }
    }
    0
}

/// The position of the first byte `c` at or after `i`, or the length when
/// there is none.
pub open spec fn index_from(s: Seq<u8>, c: u8, i: int) -> int
    decreases s.len() - i,
{
    if i >= s.len() {
        s.len() as int
    } else if s[i] == c {
        i
    } else {
        index_from(s, c, i + 1)
    }
}

pub proof fn lemma_index_from_bounds(s: Seq<u8>, c: u8, i: int)
    requires
        0 <= i <= s.len(),
    ensures
        i <= index_from(s, c, i) <= s.len(),
        forall|j: int| i <= j < index_from(s, c, i) ==> s[j] != c,
        index_from(s, c, i) < s.len() ==> s[index_from(s, c, i)] == c,
    decreases s.len() - i,
{
    if i < s.len() && s[i] != c {
        lemma_index_from_bounds(s, c, i + 1);
    }
}

proof fn lemma_index_from_is(s: Seq<u8>, c: u8, i: int, e: int)
    requires
        0 <= i <= e <= s.len(),
        forall|j: int| i <= j < e ==> s[j] != c,
        e == s.len() || s[e] == c,
    ensures
        index_from(s, c, i) == e,
    decreases e - i,
{
    if i < e {
        lemma_index_from_is(s, c, i + 1, e);
    }
}

/// The position of the first byte `c` in `s[i..]`, or the length of `s`.
fn find_byte(s: &[u8], c: u8, i: usize) -> (r: usize)
    requires
        i <= s@.len(),
    ensures
        r == index_from(s@, c, i as int),
{
    let mut e: usize = i;
    while e < s.len() && s[e] != c
        invariant
            i <= e <= s@.len(),
            forall|j: int| i <= j < e ==> s@[j] != c,
        decreases s@.len() - e,
    {
        e = e + 1;
    }
    proof {
        lemma_index_from_is(s@, c, i as int, e as int);
    }
    e
}

/// The line that starts at `i` and ends at `e` (a line feed or the end): a
/// carriage return before the line feed is not part of it.
pub open spec fn line_between(s: Seq<u8>, i: int, e: int) -> Seq<u8> {
    let raw = s.subrange(i, e);
    if e < s.len() && raw.len() > 0 && raw.last() == 13 {
        raw.drop_last()
    } else {
        raw
    }
}

/// The lines of `s` from position `i` on, as `str::lines` yields them: split at
/// line feeds, a carriage return before a line feed dropped, and no empty line
/// after a final line feed.
pub open spec fn lines_from(s: Seq<u8>, i: int) -> Seq<Seq<u8>>
    decreases s.len() - i,
{
    if i < 0 || i >= s.len() {
        Seq::empty()
    } else {
        let e = index_from(s, 10, i);
        proof {
            lemma_index_from_bounds(s, 10, i);
        }
        if e < s.len() {
            seq![line_between(s, i, e)] + lines_from(s, e + 1)
        } else {
            seq![line_between(s, i, e)]
        }
    }
}

/// The lines of `s`.
pub open spec fn lines(s: Seq<u8>) -> Seq<Seq<u8>> {
    lines_from(s, 0)
}

/// Whether `line` begins with `prefix`.
pub open spec fn starts_with(line: Seq<u8>, prefix: Seq<u8>) -> bool {
    prefix.len() <= line.len() && line.subrange(0, prefix.len() as int) == prefix
}

/// The first of `lines` that begins with `p` or with `q`.
pub open spec fn first_line_with(lines: Seq<Seq<u8>>, p: Seq<u8>, q: Seq<u8>) -> Option<Seq<u8>>
    decreases lines.len(),
{
    if lines.len() == 0 {
        None
    } else if starts_with(lines[0], p) || starts_with(lines[0], q) {
        Some(lines[0])
    } else {
        first_line_with(lines.drop_first(), p, q)
    }
}

/// The line found is the first one, in order, that begins with either prefix.
pub proof fn lemma_first_line_with_at(ls: Seq<Seq<u8>>, p: Seq<u8>, q: Seq<u8>, i: int)
    requires
        0 <= i < ls.len(),
        starts_with(ls[i], p) || starts_with(ls[i], q),
        forall|j: int|
            0 <= j < i ==> !starts_with(#[trigger] ls[j], p) && !starts_with(ls[j], q),
    ensures
        first_line_with(ls, p, q) == Some(ls[i]),
    decreases i,
{
    if i > 0 {
        let rest = ls.drop_first();
        assert(!starts_with(ls[0], p) && !starts_with(ls[0], q));
        assert forall|j: int| 0 <= j < i - 1 implies !starts_with(#[trigger] rest[j], p)
            && !starts_with(rest[j], q) by {
            assert(rest[j] == ls[j + 1]);
        }
        lemma_first_line_with_at(rest, p, q, i - 1);
    }
}

/// When no line begins with either prefix, none is found.
pub proof fn lemma_first_line_with_none(ls: Seq<Seq<u8>>, p: Seq<u8>, q: Seq<u8>)
    requires
        forall|j: int|
            0 <= j < ls.len() ==> !starts_with(#[trigger] ls[j], p) && !starts_with(ls[j], q),
    ensures
        first_line_with(ls, p, q) is None,
    decreases ls.len(),
{
    if ls.len() > 0 {
        let rest = ls.drop_first();
        assert(!starts_with(ls[0], p) && !starts_with(ls[0], q));
        assert forall|j: int| 0 <= j < rest.len() implies !starts_with(#[trigger] rest[j], p)
            && !starts_with(rest[j], q) by {
            assert(rest[j] == ls[j + 1]);
        }
        lemma_first_line_with_none(rest, p, q);
    }
}

/// Whether `s[a..b]` begins with `prefix`.
fn has_prefix(s: &[u8], a: usize, b: usize, prefix: &[u8]) -> (r: bool)
    requires
        a <= b <= s@.len(),
    ensures
        r == starts_with(s@.subrange(a as int, b as int), prefix@),
{
    if prefix.len() > b - a {
        return false;
    }
    let mut k: usize = 0;
    while k < prefix.len()
        invariant
            a <= b <= s@.len(),
            prefix@.len() <= b - a,
            0 <= k <= prefix@.len(),
            forall|j: int| 0 <= j < k ==> s@[a + j] == prefix@[j],
        decreases prefix@.len() - k,
    {
        if s[a + k] != prefix[k] {
            proof {
                assert(s@.subrange(a as int, b as int).subrange(0, prefix@.len() as int)[k as int]
                    != prefix@[k as int]);
            }
            return false;
        }
        k = k + 1;
    }
    proof {
        assert(s@.subrange(a as int, b as int).subrange(0, prefix@.len() as int) =~= prefix@);
    }
    true
}

/// The position range of the first line of `text` that begins with `p` or
/// with `q`.
pub fn find_line(text: &[u8], p: &[u8], q: &[u8]) -> (r: Option<(usize, usize)>)
    ensures
        match r {
            None => first_line_with(lines(text@), p@, q@) is None,
            Some((a, b)) => a <= b <= text@.len() && first_line_with(lines(text@), p@, q@)
                == Some(text@.subrange(a as int, b as int)),
        },
{
    let n = text.len();
    let mut i: usize = 0;
    while i < n
        invariant
            n == text@.len(),
            0 <= i <= n,
            first_line_with(lines(text@), p@, q@) == first_line_with(
                lines_from(text@, i as int),
                p@,
                q@,
            ),
        decreases n - i,
    {
        let e = find_byte(text, 10, i);
        proof {
            lemma_index_from_bounds(text@, 10, i as int);
        }
        let end = if e < n && e > i && text[e - 1] == 13 {
            e - 1
        } else {
            e
        };
        proof {
            let ls = lines_from(text@, i as int);
            assert(ls[0] =~= text@.subrange(i as int, end as int));
            if e < n {
                assert(ls.drop_first() =~= lines_from(text@, e + 1));
            } else {
                assert(ls.drop_first() =~= Seq::<Seq<u8>>::empty());
            }
        }
        if has_prefix(text, i, end, p) || has_prefix(text, i, end, q) {
            return Some((i, end));
        }
        i = if e < n {
            e + 1
        } else {
            n
        };
    }
    None
}

/// The second of the pieces that splitting `line` at colons gives (what
/// `split(':').nth(1)` yields): the bytes after the first colon up to the next
/// colon or the end; `None` without a colon.
pub open spec fn second_colon_field(line: Seq<u8>) -> Option<Seq<u8>> {
    let c = index_from(line, 58, 0);
    if c < line.len() {
        Some(line.subrange(c + 1, index_from(line, 58, c + 1)))
    } else {
        None
    }
}

/// The position range, within `line`, of its second colon-separated piece.
pub fn find_second_colon_field(line: &[u8]) -> (r: Option<(usize, usize)>)
    ensures
        match r {
            None => second_colon_field(line@) is None,
            Some((a, b)) => a <= b <= line@.len() && second_colon_field(line@) == Some(
                line@.subrange(a as int, b as int),
            ),
        },
{
    let c = find_byte(line, 58, 0);
    if c < line.len() {
        let e = find_byte(line, 58, c + 1);
        proof {
            lemma_index_from_bounds(line@, 58, c + 1);
        }
        Some((c + 1, e))
    } else {
        None
    }
}

/// `s` without its leading whitespace.
pub open spec fn trim_start(s: Seq<u8>) -> Seq<u8>
    decreases s.len(),
{
    let k = space_at(s, 0);
    if k > 0 {
        trim_start(s.subrange(k, s.len() as int))
    } else {
        s
    }
}

/// `s` without its trailing whitespace.
pub open spec fn trim_end(s: Seq<u8>) -> Seq<u8>
    decreases s.len(),
{
    let k = space_before(s, s.len() as int);
    if k > 0 {
        trim_end(s.subrange(0, s.len() - k))
    } else {
        s
    }
}

/// `s` without its leading and trailing whitespace, as `str::trim` gives it.
pub open spec fn trim(s: Seq<u8>) -> Seq<u8> {
    trim_end(trim_start(s))
}

/// The position range of `t` without its leading and trailing whitespace.
pub fn trim_range(t: &[u8]) -> (r: (usize, usize))
    ensures
        r.0 <= r.1 <= t@.len(),
        trim(t@) == t@.subrange(r.0 as int, r.1 as int),
{
    let n = t.len();
    let mut x: usize = 0;
    proof {
        assert(t@.subrange(0, n as int) =~= t@);
    }
    loop
        invariant
            n == t@.len(),
            x <= n,
            trim_start(t@) == trim_start(t@.subrange(x as int, n as int)),
        ensures
            x <= n,
            trim_start(t@) == trim_start(t@.subrange(x as int, n as int)),
            space_at(t@, x as int) == 0,
        decreases n - x,
    {
        let k = space_len(t, x);
        let ghost u = t@.subrange(x as int, n as int);
        if k == 0 {
            break;
        }
        proof {
            assert(space_at(u, 0) == space_at(t@, x as int));
            assert(u.subrange(k as int, u.len() as int) =~= t@.subrange(x + k, n as int));
        }
        x = x + k;
    }
    proof {
        let u = t@.subrange(x as int, n as int);
        assert(space_at(u, 0) == space_at(t@, x as int));
    }
    let mut y: usize = n;
    loop
        invariant
            n == t@.len(),
            x <= y <= n,
            trim(t@) == trim_end(t@.subrange(x as int, y as int)),
        ensures
            x <= y <= n,
            trim(t@) == trim_end(t@.subrange(x as int, y as int)),
            space_before(t@.subrange(x as int, y as int), y - x) == 0,
        decreases y - x,
    {
        let w = &t[x..y];
        let k = space_len_before(w, y - x);
        if k == 0 {
            break;
        }
        proof {
            assert(w@.subrange(0, w@.len() - k) =~= t@.subrange(x as int, y - k));
        }
        y = y - k;
    }
    (x, y)
}

/// The end of the word that starts at `i`: the first whitespace at or after
/// `i`, or the length.
pub open spec fn word_end(s: Seq<u8>, i: int) -> int
    decreases s.len() - i,
{
    if i >= s.len() {
        s.len() as int
    } else if space_at(s, i) > 0 {
        i
    } else {
        word_end(s, i + 1)
    }
}

pub proof fn lemma_word_end_bounds(s: Seq<u8>, i: int)
    requires
        0 <= i <= s.len(),
    ensures
        i <= word_end(s, i) <= s.len(),
    decreases s.len() - i,
{
    if i < s.len() && space_at(s, i) == 0 {
        lemma_word_end_bounds(s, i + 1);
    }
}

proof fn lemma_word_end_is(s: Seq<u8>, i: int, e: int)
    requires
        0 <= i <= e <= s.len(),
        forall|j: int| i <= j < e ==> #[trigger] space_at(s, j) == 0,
        e == s.len() || space_at(s, e) > 0,
    ensures
        word_end(s, i) == e,
    decreases e - i,
{
    if i < e {
        assert(space_at(s, i) == 0);
        lemma_word_end_is(s, i + 1, e);
    }
}

/// The whitespace-separated words of `s` from position `i` on.
pub open spec fn words_from(s: Seq<u8>, i: int) -> Seq<Seq<u8>>
    decreases s.len() - i,
{
    if i < 0 || i >= s.len() {
        Seq::empty()
    } else if space_at(s, i) > 0 {
        words_from(s, i + space_at(s, i))
    } else {
        let e = word_end(s, i);
        proof {
            lemma_word_end_bounds(s, i + 1);
        }
        seq![s.subrange(i, e)] + words_from(s, e)
    }
}

/// The whitespace-separated words of `s`, as `str::split_whitespace` yields
/// them.
pub open spec fn words(s: Seq<u8>) -> Seq<Seq<u8>> {
    words_from(s, 0)
}

/// The position range of the `n`-th (from zero) whitespace-separated word of
/// `s`; `None` when `s` has no more than `n` words.
pub fn nth_word(s: &[u8], n: usize) -> (r: Option<(usize, usize)>)
    ensures
        match r {
            None => words(s@).len() <= n,
            Some((a, b)) => a <= b <= s@.len() && n < words(s@).len() && words(s@)[n as int]
                == s@.subrange(a as int, b as int),
        },
{
    let len = s.len();
    let mut i: usize = 0;
    let mut k: usize = 0;
    while i < len
        invariant
            len == s@.len(),
            0 <= i <= len,
            k <= n,
            words(s@).len() == k + words_from(s@, i as int).len(),
            forall|j: int|
                0 <= j < words_from(s@, i as int).len() ==> words(s@)[k + j] == words_from(
                    s@,
                    i as int,
                )[j],
        decreases len - i,
    {
        let sp = space_len(s, i);
        if sp > 0 {
            i = i + sp;
        } else {
            let mut e: usize = i;
            while e < len && space_len(s, e) == 0
                invariant
                    len == s@.len(),
                    i <= e <= len,
                    forall|j: int| i <= j < e ==> #[trigger] space_at(s@, j) == 0,
                decreases len - e,
            {
                e = e + 1;
            }
            proof {
                lemma_word_end_is(s@, i as int, e as int);
                let ws = words_from(s@, i as int);
                assert(ws[0] =~= s@.subrange(i as int, e as int));
                assert(words(s@)[k as int] == ws[0]);
                assert forall|j: int| 0 <= j < words_from(s@, e as int).len() implies words(
                    s@,
                )[k + 1 + j] == words_from(s@, e as int)[j] by {
                    assert(ws[j + 1] == words_from(s@, e as int)[j]);
                }
            }
            if k == n {
                return Some((i, e));
            }
            k = k + 1;
            i = e;
        }
    }
    None
}

/// The value of a string of decimal digits.
pub open spec fn decimal_value(d: Seq<u8>) -> nat
    decreases d.len(),
{
    if d.len() == 0 {
        0
    } else {
        decimal_value(d.drop_last()) * 10 + (d.last() - 48) as nat
    }
}

/// An ASCII decimal digit.
pub open spec fn is_digit(b: u8) -> bool {
    48 <= b <= 57
}

/// Every byte of `d` is a decimal digit.
pub open spec fn all_digits(d: Seq<u8>) -> bool {
    forall|j: int| 0 <= j < d.len() ==> is_digit(#[trigger] d[j])
}

/// What `u64::from_str` gives: an optional `+`, then at least one decimal
/// digit and nothing else, whose value fits in a `u64`.
pub open spec fn parse_u64(t: Seq<u8>) -> Option<u64> {
    let d = if t.len() > 0 && t[0] == 43 {
        t.drop_first()
    } else {
        t
    };
    if d.len() > 0 && all_digits(d) && decimal_value(d) <= u64::MAX {
        Some(decimal_value(d) as u64)
    } else {
        None
    }
}

/// Appending digits never lowers the value.
proof fn lemma_decimal_value_grows(d: Seq<u8>, k: int)
    requires
        0 <= k <= d.len(),
        forall|j: int| 0 <= j < d.len() ==> is_digit(#[trigger] d[j]),
    ensures
        decimal_value(d.subrange(0, k)) <= decimal_value(d),
    decreases d.len() - k,
{
    if k < d.len() {
        lemma_decimal_value_grows(d, k + 1);
        let pre = d.subrange(0, k + 1);
        assert(pre.drop_last() =~= d.subrange(0, k));
    } else {
        assert(d.subrange(0, k) =~= d);
    }
}

/// Parses `t` as `u64::from_str` does.
pub fn parse_u64_bytes(t: &[u8]) -> (r: Option<u64>)
    ensures
        r == parse_u64(t@),
{
    let start: usize = if t.len() > 0 && t[0] == 43 {
        1
    } else {
        0
    };
    let ghost d = if t@.len() > 0 && t@[0] == 43 {
        t@.drop_first()
    } else {
        t@
    };
    proof {
        assert(d =~= t@.subrange(start as int, t@.len() as int));
    }
    if start == t.len() {
        proof {
            assert(d.len() == 0);
            assert(parse_u64(t@) is None);
        }
        return None;
    }
    let mut acc: u64 = 0;
    let mut j: usize = start;
    while j < t.len()
        invariant
            start <= j <= t@.len(),
            start < t@.len(),
            d == t@.subrange(start as int, t@.len() as int),
            d == (if t@.len() > 0 && t@[0] == 43 {
                t@.drop_first()
            } else {
                t@
            }),
            forall|m: int| start <= m < j ==> is_digit(#[trigger] t@[m]),
            acc as nat == decimal_value(t@.subrange(start as int, j as int)),
        decreases t@.len() - j,
    {
        let c = t[j];
        if c < 48 || c > 57 {
            proof {
                assert(!is_digit(d[j - start]));
                assert(!all_digits(d));
            }
            return None;
        }
        let ghost pre = t@.subrange(start as int, j + 1);
        proof {
            assert(pre.drop_last() =~= t@.subrange(start as int, j as int));
        }
        let next = match acc.checked_mul(10) {
            None => None,
            Some(m) => m.checked_add((c - 48) as u64),
        };
        match next {
            None => {
                proof {
                    assert(decimal_value(pre) == acc * 10 + (c - 48));
                    assert(decimal_value(pre) > u64::MAX);
                    if all_digits(d) {
                        lemma_decimal_value_grows(d, j + 1 - start);
                        assert(d.subrange(0, j + 1 - start) =~= pre);
                    }
                }
                return None;
            },
            Some(v) => {
                acc = v;
            },
        }
        j = j + 1;
    }
    proof {
        assert(t@.subrange(start as int, j as int) =~= d);
        assert forall|m: int| 0 <= m < d.len() implies is_digit(#[trigger] d[m]) by {
            assert(d[m] == t@[start + m]);
        }
        assert(all_digits(d));
    }
    Some(acc)
}

} // verus!
