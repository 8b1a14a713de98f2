//! Mapping character offsets to lines and columns, and lines back to text.

use vstd::prelude::*;

use crate::text::{count_char, lines_from, lines_of, next_nl, strip_cr};

verus! {

/// The 1-based line and column reached after walking over `prefix`: a line
/// feed moves to column one of the next line, any other character one
/// column on.
pub open spec fn position_of(prefix: Seq<char>) -> (nat, nat)
    decreases prefix.len(),
{
    if prefix.len() == 0 {
        (1, 1)
    } else {
        let (l, c) = position_of(prefix.drop_last());
        if prefix.last() == '\n' {
            (l + 1, 1)
        } else {
            (l, c + 1)
        }
    }
}

/// The characters before offset `offset`, or all of them where the offset
/// lies beyond the end.
pub open spec fn before_offset(source: Seq<char>, offset: int) -> Seq<char> {
    if offset < source.len() {
        source.subrange(0, offset)
    } else {
        source
    }
}

/// Bytes the UTF-8 encoding of `c` takes.
pub open spec fn utf8_width(c: char) -> int {
    if (c as u32) < 0x80 {
        1
    } else if (c as u32) < 0x800 {
        2
    } else if (c as u32) < 0x10000 {
        3
    } else {
        4
    }
}

/// The number of characters of `s` that begin before byte `byte` of its
/// UTF-8 encoding: the character offset of that byte.
pub open spec fn char_index(s: Seq<char>, byte: int) -> int
    decreases s.len(),
{
    if s.len() == 0 || byte <= 0 {
        0
    } else {
        1 + char_index(s.drop_first(), byte - utf8_width(s[0]))
    }
}

/// A byte offset, where there is one, as a character offset into `s`.
pub open spec fn char_offset_of(s: Seq<char>, offset: Option<usize>) -> Option<usize> {
    match offset {
        Some(b) => Some(char_index(s, b as int) as usize),
        None => None,
    }
}

proof fn lemma_char_index_bounds(s: Seq<char>, byte: int)
    ensures
        0 <= char_index(s, byte) <= s.len(),
    decreases s.len(),
{
    if s.len() > 0 && byte > 0 {
        lemma_char_index_bounds(s.drop_first(), byte - utf8_width(s[0]));
    }
}

fn width_of(c: char) -> (r: usize)
    ensures
        r as int == utf8_width(c),
{
    let v = c as u32;
    if v < 0x80 {
        1
    } else if v < 0x800 {
        2
    } else if v < 0x10000 {
        3
    } else {
        4
    }
}

/// The character offset of byte `byte` of the UTF-8 encoding of `s`.
pub fn char_index_of(s: &[char], byte: usize) -> (r: usize)
    ensures
        r as int == char_index(s@, byte as int),
        r <= s@.len(),
{
    let n: usize = s.len();
    let mut i: usize = 0;
    let mut rest: usize = byte;
    assert(s@.subrange(0, n as int) =~= s@);
    while i < n && rest > 0
        invariant
            n == s@.len(),
            i <= n,
            char_index(s@, byte as int) == i + char_index(s@.subrange(i as int, n as int), rest as int),
        decreases n - i,
    {
        let w = width_of(s[i]);
        let ghost tail = s@.subrange(i as int, n as int);
        assert(tail.drop_first() =~= s@.subrange(i + 1, n as int));
        assert(tail[0] == s@[i as int]);
        if w >= rest {
            assert(char_index(tail.drop_first(), rest - w) == 0);
            assert(char_index(tail.drop_first(), 0) == 0);
            rest = 0;
        } else {
            rest = rest - w;
        }
        i = i + 1;
    }
    proof {
        lemma_char_index_bounds(s@, byte as int);
    }
    i
}

/// The line of a position is one more than the line feeds before it, and
/// neither coordinate exceeds the length walked plus one.
pub proof fn lemma_position_counts_lines(prefix: Seq<char>)
    ensures
        position_of(prefix).0 == 1 + count_char(prefix, '\n'),
        position_of(prefix).0 <= prefix.len() + 1,
        1 <= position_of(prefix).1 <= prefix.len() + 1,
    decreases prefix.len(),
{
    if prefix.len() > 0 {
        lemma_position_counts_lines(prefix.drop_last());
    }
}

proof fn lemma_count_prefix(s: Seq<char>, a: int, b: int)
    requires
        0 <= a <= b <= s.len(),
    ensures
        count_char(s.subrange(0, a), '\n') <= count_char(s.subrange(0, b), '\n'),
    decreases b - a,
{
    if a < b {
        lemma_count_prefix(s, a, b - 1);
        assert(s.subrange(0, b).drop_last() =~= s.subrange(0, b - 1));
    }
}

/// Positions never go back: the line of a later offset is at least the
/// line of an earlier one, the first offset is at line 1, column 1, and an
/// offset after exactly `k` line feeds is on line `k + 1`.
pub proof fn lemma_position_monotone(source: Seq<char>, a: int, b: int)
    requires
        0 <= a <= b,
    ensures
        position_of(before_offset(source, a)).0 <= position_of(before_offset(source, b)).0,
        position_of(before_offset(source, 0)) == (1nat, 1nat),
        position_of(before_offset(source, b)).0 == 1 + count_char(before_offset(source, b), '\n'),
{
    lemma_position_counts_lines(before_offset(source, a));
    lemma_position_counts_lines(before_offset(source, b));
    let ea = if a < source.len() { a } else { source.len() as int };
    let eb = if b < source.len() { b } else { source.len() as int };
    assert(before_offset(source, a) =~= source.subrange(0, ea));
    assert(before_offset(source, b) =~= source.subrange(0, eb));
    lemma_count_prefix(source, ea, eb);
    assert(before_offset(source, 0).len() == 0);
}

proof fn lemma_lines_from_short(s: Seq<char>, from: int, k: int)
    requires
        0 <= from <= s.len(),
        0 <= k < lines_from(s, from).len(),
    ensures
        lines_from(s, from)[k].len() <= s.len(),
    decreases s.len() - from,
{
    crate::text::lemma_next_nl_bounds(s, from);
    let e = next_nl(s, from);
    if k > 0 {
        lemma_lines_from_short(s, e + 1, k - 1);
    } else {
        let piece = s.subrange(from, e);
        assert(strip_cr(piece).len() <= piece.len());
    }
}

/// No line of a text is longer than the text.
pub proof fn lemma_line_short(s: Seq<char>, k: int)
    requires
        0 <= k < lines_of(s).len(),
    ensures
        lines_of(s)[k].len() <= s.len(),
{
    lemma_lines_from_short(s, 0, k);
}

} // verus!
