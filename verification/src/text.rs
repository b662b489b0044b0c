//! Helpers on strings.

use vstd::prelude::*;
use vstd::string::*;
use vstd::utf8::*;
use crate::search::{first_some, lemma_first_some_at, lemma_first_some_none};

verus! {

/// The characters of an optional string slice.
pub open spec fn optional_text(text: Option<&str>) -> Option<Seq<char>> {
    match text {
        Some(text) => Some(text@),
        None => None,
    }
}

/// The characters of an optional string.
pub open spec fn optional_name(name: Option<String>) -> Option<Seq<char>> {
    match name {
        Some(name) => Some(name@),
        None => None,
    }
}

/// Whether two slices hold the same bytes.
pub fn bytes_eq(a: &[u8], b: &[u8]) -> (same: bool)
    ensures
        same == (a@ == b@),
{
    if a.len() != b.len() {
        return false;
    }
    let mut i: usize = 0;
    while i < a.len()
        invariant
            i <= a.len(),
            a.len() == b.len(),
            a@.take(i as int) == b@.take(i as int),
        decreases a.len() - i,
    {
        if a[i] != b[i] {
            return false;
        }
        assert(a@.take(i + 1) == a@.take(i as int).push(a@[i as int]));
        assert(b@.take(i + 1) == b@.take(i as int).push(b@[i as int]));
        i += 1;
    }
    assert(a@ == a@.take(a.len() as int));
    assert(b@ == b@.take(b.len() as int));
    true
}

/// Whether two strings hold the same characters.
///
/// The comparison runs over the UTF-8 bytes; two strings with the same bytes
/// hold the same characters because decoding undoes encoding.
pub fn str_eq(a: &str, b: &str) -> (same: bool)
    ensures
        same == (a@ == b@),
{
    proof {
        encode_utf8_decode_utf8(a@);
        encode_utf8_decode_utf8(b@);
    }
    bytes_eq(a.as_bytes(), b.as_bytes())
}

/// Whether a mark stands in a text at a place.
pub open spec fn occurs_at(text: Seq<char>, mark: Seq<char>, at: int) -> bool {
    0 <= at && at + mark.len() <= text.len() && text.subrange(at, at + mark.len()) == mark
}

/// For each place of a text: the place, where the mark stands at it.
pub open spec fn occurrences(text: Seq<char>, mark: Seq<char>) -> Seq<Option<int>> {
    Seq::new(
        text.len() + 1,
        |at: int|
            if occurs_at(text, mark, at) {
                Some(at)
            } else {
                None
            },
    )
}

/// The text with the first occurrence of a mark replaced by a value; the
/// text as it is where the mark does not occur.
pub open spec fn replaced(text: Seq<char>, mark: Seq<char>, value: Seq<char>) -> Seq<char> {
    match first_some(occurrences(text, mark)) {
        Some(at) => text.subrange(0, at) + value + text.subrange(
            at + mark.len(),
            text.len() as int,
        ),
        None => text,
    }
}

/// Replaces the first occurrence of a mark in a text by a value.
pub fn replace_first(text: &str, mark: &str, value: &str) -> (filled: String)
    ensures
        filled@ == replaced(text@, mark@, value@),
{
    let ghost places = occurrences(text@, mark@);
    let length = text.unicode_len();
    let width = mark.unicode_len();
    if width > length {
        proof {
            lemma_first_some_none(places);
        }
        return text.to_owned();
    }
    let last = length - width;
    let mut at: usize = 0;
    loop
        invariant_except_break
            forall|k: int| 0 <= k < at ==> places[k] is None,
        invariant
            last == length - width,
            length == text@.len(),
            width == mark@.len(),
            at <= last,
            places == occurrences(text@, mark@),
        ensures
            forall|k: int| 0 <= k <= last ==> places[k] is None,
        decreases last - at,
    {
        if str_eq(text.substring_char(at, at + width), mark) {
            proof {
                lemma_first_some_at(places, at as int);
            }
            let mut filled = text.substring_char(0, at).to_owned();
            filled.append(value);
            filled.append(text.substring_char(at + width, length));
            return filled;
        }
        if at == last {
            break;
        }
        at += 1;
    }
    proof {
        lemma_first_some_none(places);
    }
    text.to_owned()
}

} // verus!
