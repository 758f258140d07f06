//! Whitespace at the ends of a text.

use vstd::prelude::*;
use vstd::string::*;
use crate::encoding::lemma_byte_length_bounds;

verus! {

/// Whether `c` is whitespace: the characters with the Unicode property
/// `White_Space`, which include the line breaks.
pub open spec fn is_whitespace(c: char) -> bool {
    let code: u32 = c as u32;
    ||| 0x0009 <= code <= 0x000D
    ||| code == 0x0020
    ||| code == 0x0085
    ||| code == 0x00A0
    ||| code == 0x1680
    ||| 0x2000 <= code <= 0x200A
    ||| code == 0x2028
    ||| code == 0x2029
    ||| code == 0x202F
    ||| code == 0x205F
    ||| code == 0x3000
}

/// Whether `text` holds nothing but whitespace; the empty text does.
pub open spec fn is_blank(text: Seq<char>) -> bool {
    forall|i: int| 0 <= i < text.len() ==> is_whitespace(#[trigger] text[i])
}

/// `text` without the whitespace it begins with.
pub open spec fn trim_start(text: Seq<char>) -> Seq<char>
    decreases text.len(),
{
    if text.len() > 0 && is_whitespace(text.first()) {
        trim_start(text.drop_first())
    } else {
        text
    }
}

/// `text` without the whitespace it ends with.
pub open spec fn trim_end(text: Seq<char>) -> Seq<char>
    decreases text.len(),
{
    if text.len() > 0 && is_whitespace(text.last()) {
        trim_end(text.drop_last())
    } else {
        text
    }
}

/// `text` without the whitespace around it. Whitespace inside stays.
pub open spec fn trimmed(text: Seq<char>) -> Seq<char> {
    trim_end(trim_start(text))
}

/// Where `text` begins with `count` whitespace characters and goes on with
/// another character or ends there, `trim_start` removes exactly those.
pub proof fn lemma_trim_start_at(text: Seq<char>, count: int)
    requires
        0 <= count <= text.len(),
        is_blank(text.take(count)),
        count < text.len() ==> !is_whitespace(text[count]),
    ensures
        trim_start(text) == text.skip(count),
    decreases count,
{
    if count == 0 {
        assert(text.skip(0) =~= text);
    } else {
        assert(text.take(count)[0] == text[0]);
        let rest = text.drop_first();
        assert forall|i: int| 0 <= i < count - 1 implies is_whitespace(
            #[trigger] rest.take(count - 1)[i],
        ) by {
            assert(rest.take(count - 1)[i] == text.take(count)[i + 1]);
        }
        lemma_trim_start_at(rest, count - 1);
        assert(rest.skip(count - 1) =~= text.skip(count));
    }
}

/// Where all of `text` from position `end` on is whitespace and the character
/// before that position, if there is one, is not, `trim_end` keeps exactly
/// what stands before `end`.
pub proof fn lemma_trim_end_at(text: Seq<char>, end: int)
    requires
        0 <= end <= text.len(),
        is_blank(text.skip(end)),
        0 < end ==> !is_whitespace(text[end - 1]),
    ensures
        trim_end(text) == text.take(end),
    decreases text.len() - end,
{
    if end == text.len() {
        assert(text.take(end) =~= text);
    } else {
        assert(text.skip(end)[text.len() - end - 1] == text.last());
        let rest = text.drop_last();
        assert forall|i: int| 0 <= i < rest.len() - end implies is_whitespace(
            #[trigger] rest.skip(end)[i],
        ) by {
            assert(rest.skip(end)[i] == text.skip(end)[i]);
        }
        lemma_trim_end_at(rest, end);
        assert(rest.take(end) =~= text.take(end));
    }
}

/// Trimming cuts a text down to a middle part: what is removed in front and
/// behind is whitespace, and what is left neither begins nor ends with
/// whitespace.
pub proof fn lemma_trimmed_is_middle(text: Seq<char>) -> (bounds: (int, int))
    ensures
        0 <= bounds.0 <= bounds.1 <= text.len(),
        trimmed(text) == text.subrange(bounds.0, bounds.1),
        is_blank(text.take(bounds.0)),
        is_blank(text.skip(bounds.1)),
        trimmed(text).len() > 0 ==> !is_whitespace(trimmed(text).first()) && !is_whitespace(
            trimmed(text).last(),
        ),
    decreases text.len(),
{
    if text.len() > 0 && is_whitespace(text.first()) {
        let rest = text.drop_first();
        let inner = lemma_trimmed_is_middle(rest);
        let bounds: (int, int) = (inner.0 + 1, inner.1 + 1);
        assert(text.subrange(bounds.0, bounds.1) =~= rest.subrange(inner.0, inner.1));
        assert forall|i: int| 0 <= i < bounds.0 implies is_whitespace(
            #[trigger] text.take(bounds.0)[i],
        ) by {
            if i > 0 {
                assert(text.take(bounds.0)[i] == rest.take(inner.0)[i - 1]);
            }
        }
        assert forall|i: int| 0 <= i < text.len() - bounds.1 implies is_whitespace(
            #[trigger] text.skip(bounds.1)[i],
        ) by {
            assert(text.skip(bounds.1)[i] == rest.skip(inner.1)[i]);
        }
        bounds
    } else {
        assert(trim_start(text) == text);
        let end: int = lemma_trim_end_bound(text);
        assert(text.take(end) =~= text.subrange(0, end));
        (0, end)
    }
}

/// `trim_end` keeps a prefix: what it removes is whitespace, and what it
/// leaves does not end with whitespace.
pub proof fn lemma_trim_end_bound(text: Seq<char>) -> (end: int)
    ensures
        0 <= end <= text.len(),
        trim_end(text) == text.take(end),
        is_blank(text.skip(end)),
        end > 0 ==> !is_whitespace(text[end - 1]),
    decreases text.len(),
{
    if text.len() > 0 && is_whitespace(text.last()) {
        let rest = text.drop_last();
        let end: int = lemma_trim_end_bound(rest);
        assert(rest.take(end) =~= text.take(end));
        assert forall|i: int| 0 <= i < text.len() - end implies is_whitespace(
            #[trigger] text.skip(end)[i],
        ) by {
            if i < rest.len() - end {
                assert(text.skip(end)[i] == rest.skip(end)[i]);
            }
        }
        end
    } else {
        assert(text.take(text.len() as int) =~= text);
        text.len() as int
    }
}

/// Nothing is left of a text after trimming exactly when the text is blank.
pub proof fn lemma_trimmed_empty_iff_blank(text: Seq<char>)
    ensures
        trimmed(text).len() == 0 <==> is_blank(text),
{
    let bounds = lemma_trimmed_is_middle(text);
    if is_blank(text) {
        if trimmed(text).len() > 0 {
            assert(trimmed(text).first() == text[bounds.0]);
        }
    } else {
        let k: int = choose|k: int| 0 <= k < text.len() && !is_whitespace(#[trigger] text[k]);
        if k < bounds.0 {
            assert(text.take(bounds.0)[k] == text[k]);
        } else if k >= bounds.1 {
            assert(text.skip(bounds.1)[k - bounds.1] == text[k]);
        }
    }
}

/// Decides whether `c` is whitespace.
pub fn is_whitespace_char(c: char) -> (result: bool)
    ensures
        result == is_whitespace(c),
{
    let code: u32 = c as u32;
    (0x0009 <= code && code <= 0x000D) || code == 0x0020 || code == 0x0085 || code == 0x00A0
        || code == 0x1680 || (0x2000 <= code && code <= 0x200A) || code == 0x2028 || code
        == 0x2029 || code == 0x202F || code == 0x205F || code == 0x3000
}

/// Returns `text` without the whitespace around it.
pub fn trim(text: &str) -> (inner: &str)
    ensures
        inner@ == trimmed(text@),
{
    let size: usize = text.as_bytes().len();
    proof {
        lemma_byte_length_bounds(text@);
    }
    if size == 0 {
        return text;
    }
    let mut start: usize = 0;
    let mut end: usize = 0;
    let mut index: usize = 0;
    for c in it: text.chars()
        invariant
            it.seq() == text@,
            index == it.index(),
            text@.len() <= usize::MAX,
            start <= end <= index,
            start == end ==> start == 0,
            forall|i: int| 0 <= i < start ==> is_whitespace(#[trigger] text@[i]),
            forall|i: int| end <= i < index ==> is_whitespace(#[trigger] text@[i]),
            start < end ==> !is_whitespace(text@[start as int]) && !is_whitespace(
                text@[end - 1],
            ),
    {
        if !is_whitespace_char(c) {
            if start == end {
                start = index;
            }
            end = index + 1;
        }
        index = index + 1;
    }
    let inner = text.substring_char(start, end);
    proof {
        let whole = text@;
        if start == end {
            assert(is_blank(whole));
            lemma_trimmed_empty_iff_blank(whole);
            assert(inner@ =~= trimmed(whole));
        } else {
            assert(is_blank(whole.take(start as int)));
            lemma_trim_start_at(whole, start as int);
            let tail = whole.skip(start as int);
            assert forall|i: int| 0 <= i < tail.len() - (end - start) implies is_whitespace(
                #[trigger] tail.skip(end - start)[i],
            ) by {
                assert(tail.skip(end - start)[i] == whole[end + i]);
            }
            assert(tail[end - start - 1] == whole[end - 1]);
            lemma_trim_end_at(tail, end - start);
            assert(tail.take(end - start) =~= whole.subrange(start as int, end as int));
        }
    }
    inner
}

/// Decides whether `text` holds nothing but whitespace.
pub fn is_blank_text(text: &str) -> (result: bool)
    ensures
        result == is_blank(text@),
{
    let inner = trim(text);
    proof {
        lemma_trimmed_empty_iff_blank(text@);
    }
    inner.is_empty()
}

} // verus!
