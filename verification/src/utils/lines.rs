//! Cutting text into lines and taking the blank space off their ends.

use vstd::prelude::*;
use crate::utils::text::{string_of, texts};

verus! {

/// Whether `c` is white space: one of the characters to which Unicode
/// gives the property White_Space.
pub open spec fn is_white_space(c: char) -> bool {
    let code = c as u32;
    ||| 0x09 <= code <= 0x0D
    ||| code == 0x20
    ||| code == 0x85
    ||| code == 0xA0
    ||| code == 0x1680
    ||| 0x2000 <= code <= 0x200A
    ||| code == 0x2028
    ||| code == 0x2029
    ||| code == 0x202F
    ||| code == 0x205F
    ||| code == 0x3000
}

/// Tells whether a character is white space.
pub fn is_whitespace_char(c: char) -> (blank: bool)
    ensures
        blank == is_white_space(c),
{
    let code: u32 = c as u32;
    (0x09 <= code && code <= 0x0D) || code == 0x20 || code == 0x85 || code == 0xA0 || code
        == 0x1680 || (0x2000 <= code && code <= 0x200A) || code == 0x2028 || code == 0x2029
        || code == 0x202F || code == 0x205F || code == 0x3000
}

/// `text` without the white space at its start.
pub open spec fn trim_start(text: Seq<char>) -> Seq<char>
    decreases text.len(),
{
    if text.len() > 0 && is_white_space(text[0]) {
        trim_start(text.skip(1))
    } else {
        text
    }
}

/// `text` without the white space at its end.
pub open spec fn trim_end(text: Seq<char>) -> Seq<char>
    decreases text.len(),
{
    if text.len() > 0 && is_white_space(text.last()) {
        trim_end(text.drop_last())
    } else {
        text
    }
}

/// `text` without the white space at either end.
pub open spec fn trimmed(text: Seq<char>) -> Seq<char> {
    trim_end(trim_start(text))
}

/// The number of characters before the first line feed of `text`, or its
/// length where it has none.
pub open spec fn first_line_len(text: Seq<char>) -> nat
    decreases text.len(),
{
    if text.len() == 0 || text[0] == '\n' {
        0
    } else {
        1 + first_line_len(text.skip(1))
    }
}

/// The lines of `text` that are more than white space, each without the
/// white space at its ends, in order. Lines end at a line feed.
pub open spec fn filled_lines(text: Seq<char>) -> Seq<Seq<char>>
    decreases text.len(),
{
    if text.len() == 0 {
        Seq::empty()
    } else {
        let cut = first_line_len(text) as int;
        let line = trimmed(text.take(cut));
        let rest = if cut < text.len() {
            filled_lines(text.skip(cut + 1))
        } else {
            Seq::empty()
        };
        if line.len() == 0 {
            rest
        } else {
            seq![line] + rest
        }
    }
}

/// Skipping white space one character at a time reaches `trim_start`.
proof fn lemma_trim_start(text: Seq<char>, blank: int)
    requires
        0 <= blank <= text.len(),
        forall|j: int| 0 <= j < blank ==> is_white_space(text[j]),
        blank == text.len() || !is_white_space(text[blank]),
    ensures
        trim_start(text) == text.skip(blank),
    decreases blank,
{
    if blank == 0 {
    } else {
        lemma_trim_start(text.skip(1), blank - 1);
    }
}

/// Dropping white space from the end one character at a time reaches
/// `trim_end`.
proof fn lemma_trim_end(text: Seq<char>, kept: int)
    requires
        0 <= kept <= text.len(),
        forall|j: int| kept <= j < text.len() ==> is_white_space(text[j]),
        kept == 0 || !is_white_space(text[kept - 1]),
    ensures
        trim_end(text) == text.take(kept),
    decreases text.len() - kept,
{
    if kept == text.len() {
    } else {
        lemma_trim_end(text.drop_last(), kept);
    }
}

/// A stretch without a line feed, ended by one or by the end of the text,
/// is the first line.
proof fn lemma_first_line(text: Seq<char>, cut: int)
    requires
        0 <= cut <= text.len(),
        forall|j: int| 0 <= j < cut ==> text[j] != '\n',
        cut == text.len() || text[cut] == '\n',
    ensures
        first_line_len(text) == cut,
    decreases cut,
{
    if cut > 0 {
        lemma_first_line(text.skip(1), cut - 1);
    }
}

/// The bounds of `chars[from..to]` without the white space at its ends.
pub fn trim_bounds(chars: &Vec<char>, from: usize, to: usize) -> (bounds: (usize, usize))
    requires
        from <= to <= chars@.len(),
    ensures
        from <= bounds.0 <= bounds.1 <= to,
        chars@.subrange(bounds.0 as int, bounds.1 as int) == trimmed(
            chars@.subrange(from as int, to as int),
        ),
{
    let ghost part = chars@.subrange(from as int, to as int);
    let mut start: usize = from;
    while start < to && is_whitespace_char(chars[start])
        invariant
            from <= start <= to <= chars@.len(),
            forall|j: int| from <= j < start ==> is_white_space(chars@[j]),
        decreases to - start,
    {
        start = start + 1;
    }
    let mut end: usize = to;
    while end > start && is_whitespace_char(chars[end - 1])
        invariant
            start <= end <= to <= chars@.len(),
            forall|j: int| end <= j < to ==> is_white_space(chars@[j]),
        decreases end,
    {
        end = end - 1;
    }
    proof {
        lemma_trim_start(part, start - from);
        let rest = part.skip(start - from);
        lemma_trim_end(rest, end - start);
    }
    (start, end)
}

/// The lines of `chars` that are more than white space, trimmed, in order.
pub fn collect_filled_lines(chars: &Vec<char>) -> (lines: Vec<String>)
    ensures
        texts(lines@) == filled_lines(chars@),
{
    let mut lines: Vec<String> = Vec::new();
    let mut pos: usize = 0;
    assert(chars@.skip(0) =~= chars@);
    while pos < chars.len()
        invariant
            pos <= chars@.len(),
            texts(lines@) + filled_lines(chars@.skip(pos as int)) == filled_lines(
                chars@,
            ),
        decreases chars@.len() - pos,
    {
        let ghost rest = chars@.skip(pos as int);
        let mut cut: usize = pos;
        while cut < chars.len() && chars[cut] != '\n'
            invariant
                pos <= cut <= chars@.len(),
                forall|j: int| pos <= j < cut ==> chars@[j] != '\n',
            decreases chars@.len() - cut,
        {
            cut = cut + 1;
        }
        let bounds = trim_bounds(chars, pos, cut);
        proof {
            lemma_first_line(rest, cut - pos);
            assert(rest.take(cut - pos) =~= chars@.subrange(pos as int, cut as int));
        }
        let ghost before = texts(lines@);
        if bounds.0 < bounds.1 {
            lines.push(string_of(chars, bounds.0, bounds.1));
            assert(texts(lines@) =~= before + seq![
                chars@.subrange(bounds.0 as int, bounds.1 as int),
            ]);
        }
        if cut < chars.len() {
            assert(rest.skip(cut - pos + 1) =~= chars@.skip(cut + 1));
            pos = cut + 1;
        } else {
            pos = cut;
        }
        assert(texts(lines@) + filled_lines(chars@.skip(pos as int))
            =~= filled_lines(chars@));
    }
    lines
}

} // verus!
