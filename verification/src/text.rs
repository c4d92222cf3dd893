//! Trusted views of the text operations the engine leans on.
//!
//! The splitting and decoding rules of the standard library (Unicode
//! whitespace, line endings, lossy UTF-8, character classes) are far too
//! large to restate here, so each result gets an uninterpreted name, and a
//! thin wrapper ties the executable call to that name.

use vstd::prelude::*;

verus! {

/// The tokens `str::split_whitespace` yields for a string, each as a
/// sequence of characters; the result depends on the characters alone.
pub uninterp spec fn whitespace_tokens(s: Seq<char>) -> Seq<Seq<char>>;

/// Relies on `str::split_whitespace`: it yields the whitespace-separated
/// tokens of the string, none of them empty, and an empty string has none.
#[verifier::external_body]
pub(crate) fn split_whitespace_tokens(s: &str) -> (r: Vec<String>)
    ensures
        r.deep_view() == whitespace_tokens(s@),
        s@.len() == 0 ==> r@.len() == 0,
        forall|i: int| 0 <= i < r@.len() ==> #[trigger] r@[i]@.len() > 0,
{
    s.split_whitespace().map(|t| t.to_string()).collect()
}

/// The lines `str::lines` yields for a string, each as a sequence of
/// characters; the result depends on the characters alone.
pub uninterp spec fn split_lines(s: Seq<char>) -> Seq<Seq<char>>;

/// Relies on `str::lines`: it yields the lines of the string, split at line
/// endings, and an empty string has none.
#[verifier::external_body]
pub(crate) fn split_into_lines(s: &str) -> (r: Vec<String>)
    ensures
        r.deep_view() == split_lines(s@),
        s@.len() == 0 ==> r@.len() == 0,
{
    s.lines().map(|line| line.to_string()).collect()
}

/// The characters `String::from_utf8_lossy` decodes from a byte sequence;
/// the result depends on the bytes alone.
pub uninterp spec fn utf8_lossy(bytes: Seq<u8>) -> Seq<char>;

/// Relies on `String::from_utf8_lossy`: it decodes the bytes as UTF-8,
/// substituting U+FFFD where they are invalid, and no bytes decode to no
/// text.
#[verifier::external_body]
pub(crate) fn decode_utf8_lossy(bytes: &[u8]) -> (r: String)
    ensures
        r@ == utf8_lossy(bytes@),
        bytes@.len() == 0 ==> r@.len() == 0,
{
    String::from_utf8_lossy(bytes).into_owned()
}

/// Whether `char::is_alphabetic` holds of a character; it depends on the
/// character alone.
pub uninterp spec fn alphabetic(c: char) -> bool;

/// Whether `char::is_uppercase` holds of a character; it depends on the
/// character alone.
pub uninterp spec fn uppercase(c: char) -> bool;

/// Relies on `char::is_alphabetic`: the Unicode "alphabetic" classification.
pub assume_specification[ char::is_alphabetic ](c: char) -> (r: bool)
    ensures
        r == alphabetic(c),
;

/// Relies on `char::is_uppercase`: the Unicode "uppercase" classification.
pub assume_specification[ char::is_uppercase ](c: char) -> (r: bool)
    ensures
        r == uppercase(c),
;

/// A line looks like a header when every alphabetic character in it is
/// uppercase; digits, whitespace and punctuation do not disqualify it.
pub open spec fn header_like(s: Seq<char>) -> bool {
    forall|i: int| 0 <= i < s.len() ==> (alphabetic(#[trigger] s[i]) ==> uppercase(s[i]))
}

} // verus!
