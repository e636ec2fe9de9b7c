//! Small operations on text, stated over sequences of characters.

use vstd::prelude::*;
use vstd::string::*;

verus! {

/// Whether `text` begins with `prefix`.
pub open spec fn has_prefix(text: Seq<char>, prefix: Seq<char>) -> bool {
    prefix.len() <= text.len() && text.subrange(0, prefix.len() as int) == prefix
}

/// The characters of a text, in order.
pub fn chars_of(text: &str) -> (chars: Vec<char>)
    ensures
        chars@ == text@,
{
    let length = text.unicode_len();
    let mut chars: Vec<char> = Vec::new();
    let mut index: usize = 0;
    while index < length
        invariant
            length == text@.len(),
            index <= length,
            chars@ == text@.take(index as int),
        decreases length - index,
    {
        chars.push(text.get_char(index));
        index += 1;
        assert(chars@ =~= text@.take(index as int));
    }
    assert(text@.take(length as int) =~= text@);
    chars
}

/// Whether two texts hold the same characters.
pub fn str_equal(left: &str, right: &str) -> (same: bool)
    ensures
        same == (left@ == right@),
{
    let a = String::from_str(left);
    let b = String::from_str(right);
    a == b
}

/// The rest of `text` after `prefix`, where it begins with it.
pub fn strip_prefix<'a>(text: &'a str, prefix: &str) -> (rest: Option<&'a str>)
    ensures
        rest.is_some() == has_prefix(text@, prefix@),
        rest.is_some() ==> rest.unwrap()@ == text@.subrange(prefix@.len() as int, text@.len() as int),
{
    let text_len = text.unicode_len();
    let prefix_len = prefix.unicode_len();
    if prefix_len > text_len {
        return None;
    }
    let head = text.substring_char(0, prefix_len);
    if str_equal(head, prefix) {
        Some(text.substring_char(prefix_len, text_len))
    } else {
        None
    }
}

/// The position of the first `wanted` in a sequence, or the length of the
/// sequence where there is none.
pub open spec fn first_index<T>(text: Seq<T>, wanted: T) -> int
    decreases text.len(),
{
    if text.len() == 0 {
        0
    } else if text[0] == wanted {
        0
    } else {
        1 + first_index(text.drop_first(), wanted)
    }
}

/// A position with no `wanted` before it, which holds `wanted` or is the
/// end of `text`, is the first index of `wanted`.
pub proof fn lemma_first_index_is<T>(text: Seq<T>, wanted: T, position: int)
    requires
        0 <= position <= text.len(),
        forall|i: int| 0 <= i < position ==> text[i] != wanted,
        position < text.len() ==> text[position] == wanted,
    ensures
        first_index(text, wanted) == position,
    decreases text.len(),
{
    if text.len() > 0 && position > 0 {
        let rest = text.drop_first();
        assert forall|i: int| 0 <= i < position - 1 implies rest[i] != wanted by {
            assert(rest[i] == text[i + 1]);
        }
        lemma_first_index_is(rest, wanted, position - 1);
    }
}

/// The first index lies within `text` or at its end, holds `wanted` where
/// it lies within, and nothing before it does.
pub proof fn lemma_first_index_bounds<T>(text: Seq<T>, wanted: T)
    ensures
        0 <= first_index(text, wanted) <= text.len(),
        first_index(text, wanted) < text.len() ==> text[first_index(text, wanted)] == wanted,
        forall|i: int| 0 <= i < first_index(text, wanted) ==> text[i] != wanted,
    decreases text.len(),
{
    if text.len() > 0 && text[0] != wanted {
        let rest = text.drop_first();
        lemma_first_index_bounds(rest, wanted);
        assert forall|i: int| 0 <= i < first_index(text, wanted) implies text[i] != wanted by {
            if i > 0 {
                assert(rest[i - 1] == text[i]);
            }
        }
    }
}

/// Finds the first `wanted` in the positions from `start` up to `end`.
pub fn find_char(chars: &Vec<char>, start: usize, end: usize, wanted: char) -> (position: usize)
    requires
        start <= end <= chars@.len(),
    ensures
        start <= position <= end,
        position - start == first_index(chars@.subrange(start as int, end as int), wanted),
{
    let mut position = start;
    while position < end && chars[position] != wanted
        invariant
            start <= position <= end <= chars@.len(),
            forall|i: int| start <= i < position ==> chars@[i] != wanted,
        decreases end - position,
    {
        position += 1;
    }
    proof {
        let span = chars@.subrange(start as int, end as int);
        assert forall|i: int| 0 <= i < position - start implies span[i] != wanted by {
            assert(span[i] == chars@[start + i]);
        }
        lemma_first_index_is(span, wanted, position - start);
    }
    position
}

/// What is left of `text` after the spaces at its start.
pub open spec fn skip_spaces(text: Seq<char>) -> Seq<char>
    decreases text.len(),
{
    if text.len() > 0 && text[0] == ' ' {
        skip_spaces(text.drop_first())
    } else {
        text
    }
}

/// Finds the first position from `start` up to `end` that holds no space.
pub fn skip_space_chars(chars: &Vec<char>, start: usize, end: usize) -> (position: usize)
    requires
        start <= end <= chars@.len(),
    ensures
        start <= position <= end,
        skip_spaces(chars@.subrange(start as int, end as int)) == chars@.subrange(position as int, end as int),
{
    let mut position = start;
    while position < end && chars[position] == ' '
        invariant
            start <= position <= end <= chars@.len(),
            skip_spaces(chars@.subrange(start as int, end as int)) == skip_spaces(
                chars@.subrange(position as int, end as int),
            ),
        decreases end - position,
    {
        assert(chars@.subrange(position as int, end as int).drop_first() =~= chars@.subrange(
            position + 1,
            end as int,
        ));
        position += 1;
    }
    position
}

/// What is left of `text` after every `unwanted` at its start.
pub open spec fn trim_start(text: Seq<char>, unwanted: char) -> Seq<char>
    decreases text.len(),
{
    if text.len() > 0 && text[0] == unwanted {
        trim_start(text.drop_first(), unwanted)
    } else {
        text
    }
}

/// What is left of `text` after every `unwanted` at its end.
pub open spec fn trim_end(text: Seq<char>, unwanted: char) -> Seq<char>
    decreases text.len(),
{
    if text.len() > 0 && text.last() == unwanted {
        trim_end(text.drop_last(), unwanted)
    } else {
        text
    }
}

/// What is left of `text` after every `unwanted` at its start and at its
/// end.
pub open spec fn trim_both(text: Seq<char>, unwanted: char) -> Seq<char> {
    trim_end(trim_start(text, unwanted), unwanted)
}

/// Cuts every `unwanted` off both ends of `text`.
pub fn trim_matches<'a>(text: &'a str, unwanted: char) -> (trimmed: &'a str)
    ensures
        trimmed@ == trim_both(text@, unwanted),
{
    let chars = chars_of(text);
    let length = chars.len();
    let mut begin: usize = 0;
    assert(chars@.subrange(0, length as int) =~= text@);
    while begin < length && chars[begin] == unwanted
        invariant
            chars@ == text@,
            length == chars@.len(),
            begin <= length,
            trim_start(text@, unwanted) == trim_start(chars@.subrange(begin as int, length as int), unwanted),
        decreases length - begin,
    {
        assert(chars@.subrange(begin as int, length as int).drop_first() =~= chars@.subrange(
            begin + 1,
            length as int,
        ));
        begin += 1;
    }
    let mut end: usize = length;
    while end > begin && chars[end - 1] == unwanted
        invariant
            chars@ == text@,
            length == chars@.len(),
            begin <= end <= length,
            trim_start(text@, unwanted) == chars@.subrange(begin as int, length as int),
            trim_both(text@, unwanted) == trim_end(chars@.subrange(begin as int, end as int), unwanted),
        decreases end - begin,
    {
        assert(chars@.subrange(begin as int, end as int).drop_last() =~= chars@.subrange(begin as int, end - 1));
        end -= 1;
    }
    text.substring_char(begin, end)
}

/// Whether no two of the texts are the same.
pub open spec fn all_different(texts: Seq<Seq<char>>) -> bool {
    forall|i: int, j: int| 0 <= i < j < texts.len() ==> texts[i] != texts[j]
}

/// The lowercase form of a text, as the standard library gives it.
pub uninterp spec fn lowercase_of(text: Seq<char>) -> Seq<char>;

/// Calls `str::to_lowercase`. The contract names the text it returns.
#[verifier::external_body]
pub(crate) fn to_lowercase(text: &str) -> (lowered: String)
    ensures
        lowered@ == lowercase_of(text@),
{
    text.to_lowercase()
}

} // verus!
