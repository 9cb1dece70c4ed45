//! Trimming a minified program before it is encoded: the white space round
//! it goes, and then the statement terminators at its end.

use vstd::prelude::*;
use vstd::string::*;
use crate::encoder::chars_of;

verus! {

/// A character with the Unicode property White_Space.
pub open spec fn is_white_space(c: char) -> bool {
    let code = c as u32;
    ||| 0x09 <= code <= 0x0d
    ||| code == 0x20
    ||| code == 0x85
    ||| code == 0xa0
    ||| code == 0x1680
    ||| 0x2000 <= code <= 0x200a
    ||| code == 0x2028
    ||| code == 0x2029
    ||| code == 0x202f
    ||| code == 0x205f
    ||| code == 0x3000
}

/// `text` without the white space at its start.
pub open spec fn without_leading_space(text: Seq<char>) -> Seq<char>
    decreases text.len(),
{
    if text.len() > 0 && is_white_space(text[0]) {
        without_leading_space(text.skip(1))
    } else {
        text
    }
}

/// `text` without the white space at its end.
pub open spec fn without_trailing_space(text: Seq<char>) -> Seq<char>
    decreases text.len(),
{
    if text.len() > 0 && is_white_space(text.last()) {
        without_trailing_space(text.drop_last())
    } else {
        text
    }
}

/// `text` without the semicolons at its end.
pub open spec fn without_trailing_semicolons(text: Seq<char>) -> Seq<char>
    decreases text.len(),
{
    if text.len() > 0 && text.last() == ';' {
        without_trailing_semicolons(text.drop_last())
    } else {
        text
    }
}

/// `text` as it is handed to the encoder: without the white space round it,
/// and then without the semicolons at its end.
pub open spec fn stripped(text: Seq<char>) -> Seq<char> {
    without_trailing_semicolons(without_trailing_space(without_leading_space(text)))
}

/// Whether `c` has the Unicode property White_Space.
pub fn is_whitespace(c: char) -> (res: bool)
    ensures
        res == is_white_space(c),
{
    let code: u32 = c as u32;
    (0x09 <= code && code <= 0x0d) || code == 0x20 || code == 0x85 || code == 0xa0 || code
        == 0x1680 || (0x2000 <= code && code <= 0x200a) || code == 0x2028 || code == 0x2029
        || code == 0x202f || code == 0x205f || code == 0x3000
}

/// Strips the white space round `text`, and then the semicolons at its end.
pub fn strip_terminators(text: &str) -> (res: &str)
    ensures
        res@ == stripped(text@),
{
    let chars = chars_of(text);
    let len = chars.len();
    let mut start: usize = 0;
    assert(text@.skip(0) =~= text@);
    while start < len && is_whitespace(chars[start])
        invariant
            chars@ == text@,
            len == chars@.len(),
            start <= len,
            without_leading_space(text@) == without_leading_space(text@.skip(start as int)),
        decreases len - start,
    {
        assert(text@.skip(start as int).skip(1) =~= text@.skip(start + 1));
        start = start + 1;
    }
    let ghost body = text@.skip(start as int);
    assert(without_leading_space(text@) == body);
    let mut end: usize = len;
    assert(text@.subrange(start as int, len as int) =~= body);
    while end > start && is_whitespace(chars[end - 1])
        invariant
            chars@ == text@,
            len == chars@.len(),
            start <= end <= len,
            without_trailing_space(body) == without_trailing_space(
                text@.subrange(start as int, end as int),
            ),
        decreases end,
    {
        assert(text@.subrange(start as int, end as int).drop_last() =~= text@.subrange(
            start as int,
            end - 1,
        ));
        end = end - 1;
    }
    let ghost inner = text@.subrange(start as int, end as int);
    assert(without_trailing_space(body) == inner);
    while end > start && chars[end - 1] == ';'
        invariant
            chars@ == text@,
            len == chars@.len(),
            start <= end <= len,
            without_trailing_semicolons(inner) == without_trailing_semicolons(
                text@.subrange(start as int, end as int),
            ),
        decreases end,
    {
        assert(text@.subrange(start as int, end as int).drop_last() =~= text@.subrange(
            start as int,
            end - 1,
        ));
        end = end - 1;
    }
    text.substring_char(start, end)
}

/// `part` is `text` from one position to another, with nothing left out in
/// between.
pub open spec fn is_stretch_of(part: Seq<char>, text: Seq<char>) -> bool {
    exists|from: int, to: int|
        0 <= from <= to <= text.len() && part == #[trigger] text.subrange(from, to)
}

/// Dropping leading white space leaves the end of the text, and nothing that
/// begins with white space.
proof fn lemma_without_leading_space(text: Seq<char>)
    ensures
        exists|from: int|
            0 <= from <= text.len() && without_leading_space(text) == #[trigger] text.skip(from),
        without_leading_space(text).len() > 0 ==> !is_white_space(without_leading_space(text)[0]),
    decreases text.len(),
{
    if text.len() > 0 && is_white_space(text[0]) {
        lemma_without_leading_space(text.skip(1));
        let from = choose|from: int|
            0 <= from <= text.skip(1).len() && without_leading_space(text.skip(1))
                == #[trigger] text.skip(1).skip(from);
        assert(text.skip(1).skip(from) =~= text.skip(from + 1));
    } else {
        assert(text =~= text.skip(0));
    }
}

/// Dropping trailing white space leaves a beginning of the text.
proof fn lemma_without_trailing_space(text: Seq<char>)
    ensures
        exists|to: int|
            0 <= to <= text.len() && without_trailing_space(text) == #[trigger] text.take(to),
    decreases text.len(),
{
    if text.len() > 0 && is_white_space(text.last()) {
        lemma_without_trailing_space(text.drop_last());
        let to = choose|to: int|
            0 <= to <= text.drop_last().len() && without_trailing_space(text.drop_last())
                == #[trigger] text.drop_last().take(to);
        assert(text.drop_last().take(to) =~= text.take(to));
    } else {
        assert(text =~= text.take(text.len() as int));
    }
}

/// Dropping trailing semicolons leaves a beginning of the text, and nothing
/// that ends with a semicolon.
proof fn lemma_without_trailing_semicolons(text: Seq<char>)
    ensures
        exists|to: int|
            0 <= to <= text.len() && without_trailing_semicolons(text) == #[trigger] text.take(to),
        without_trailing_semicolons(text).len() > 0 ==> without_trailing_semicolons(text).last()
            != ';',
    decreases text.len(),
{
    if text.len() > 0 && text.last() == ';' {
        lemma_without_trailing_semicolons(text.drop_last());
        let to = choose|to: int|
            0 <= to <= text.drop_last().len() && without_trailing_semicolons(text.drop_last())
                == #[trigger] text.drop_last().take(to);
        assert(text.drop_last().take(to) =~= text.take(to));
    } else {
        assert(text =~= text.take(text.len() as int));
    }
}

/// What is left of a text is one stretch of it, which does not begin with
/// white space and does not end with a semicolon.
pub proof fn lemma_stripped_ends(text: Seq<char>)
    ensures
        is_stretch_of(stripped(text), text),
        stripped(text).len() > 0 ==> !is_white_space(stripped(text)[0]),
        stripped(text).len() > 0 ==> stripped(text).last() != ';',
{
    let led = without_leading_space(text);
    let spaced = without_trailing_space(led);
    lemma_without_leading_space(text);
    lemma_without_trailing_space(led);
    lemma_without_trailing_semicolons(spaced);
    let from = choose|from: int| 0 <= from <= text.len() && led == #[trigger] text.skip(from);
    let mid = choose|to: int| 0 <= to <= led.len() && spaced == #[trigger] led.take(to);
    let to = choose|to: int|
        0 <= to <= spaced.len() && without_trailing_semicolons(spaced) == #[trigger] spaced.take(
            to,
        );
    assert(stripped(text) =~= text.subrange(from, from + to));
    if stripped(text).len() > 0 {
        assert(stripped(text)[0] == led[0]);
    }
}

} // verus!
