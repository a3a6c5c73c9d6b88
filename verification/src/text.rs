//! Text operations on log lines and error messages.

use vstd::prelude::*;

verus! {

/// Whether `needle` occurs in `haystack` as a contiguous run of characters.
pub open spec fn is_substring(needle: Seq<char>, haystack: Seq<char>) -> bool {
    exists|i: int|
        0 <= i && i + needle.len() <= haystack.len() && #[trigger] haystack.subrange(
            i,
            i + needle.len(),
        ) == needle
}

/// What follows `prefix` in `text`, where `text` starts with it.
pub open spec fn without_prefix(text: Seq<char>, prefix: Seq<char>) -> Option<Seq<char>> {
    if prefix.is_prefix_of(text) {
        Some(text.skip(prefix.len() as int))
    } else {
        None
    }
}

/// `text` without its leading and trailing white space.
pub uninterp spec fn trimmed(text: Seq<char>) -> Seq<char>;

/// The bytes that `text` stands for in standard base64 with padding; `None`
/// where `text` is no such encoding.
pub uninterp spec fn base64_decoded(text: Seq<char>) -> Option<Seq<u8>>;

/// The bytes that `text` stands for in base58 with the Bitcoin alphabet;
/// `None` where `text` is no such encoding.
pub uninterp spec fn base58_decoded(text: Seq<char>) -> Option<Seq<u8>>;

/// The characters of an optional string slice.
pub open spec fn chars_of(text: Option<&str>) -> Option<Seq<char>> {
    match text {
        Some(t) => Some(t@),
        None => None,
    }
}

/// The bytes of an optional byte vector.
pub open spec fn bytes_of(data: Option<Vec<u8>>) -> Option<Seq<u8>> {
    match data {
        Some(d) => Some(d@),
        None => None,
    }
}

/// Calls `str::contains` with a string pattern. Trusted: it tells whether
/// the pattern occurs in the text.
#[verifier::external_body]
pub(crate) fn str_contains(haystack: &str, needle: &str) -> (found: bool)
    ensures
        found == is_substring(needle@, haystack@),
{
    haystack.contains(needle)
}

/// Calls `str::strip_prefix` with a string pattern. Trusted: it returns the
/// text after the prefix, and `None` where the text does not start with it.
#[verifier::external_body]
pub(crate) fn str_strip_prefix<'a>(text: &'a str, prefix: &str) -> (rest: Option<&'a str>)
    ensures
        chars_of(rest) == without_prefix(text@, prefix@),
{
    text.strip_prefix(prefix)
}

/// Calls `str::trim`. Trusted: the result is the text named by [`trimmed`],
/// which depends on the characters of the text alone.
#[verifier::external_body]
pub(crate) fn str_trim<'a>(text: &'a str) -> (inner: &'a str)
    ensures
        inner@ == trimmed(text@),
{
    text.trim()
}

/// Calls `decode` of `base64::engine::general_purpose::STANDARD`. Trusted:
/// the result is the decoding named by [`base64_decoded`], `None` standing
/// for every decoding error.
#[verifier::external_body]
pub(crate) fn base64_decode(text: &str) -> (data: Option<Vec<u8>>)
    ensures
        bytes_of(data) == base64_decoded(text@),
{
    base64::Engine::decode(&base64::engine::general_purpose::STANDARD, text).ok()
}

/// Calls `bs58::decode` and `into_vec`. Trusted: the result is the decoding
/// named by [`base58_decoded`], `None` standing for every decoding error.
#[verifier::external_body]
pub(crate) fn base58_decode(text: &str) -> (data: Option<Vec<u8>>)
    ensures
        bytes_of(data) == base58_decoded(text@),
{
    bs58::decode(text).into_vec().ok()
}

} // verus!
