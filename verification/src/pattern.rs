//! Compiled search patterns.
//!
//! Matching is done by the regex crate over the UTF-8 view of a byte slice;
//! what a pattern matches is named, not restated: `regex_find_range` is the
//! byte range of the leftmost match, a function of the pattern and the
//! haystack alone.

use vstd::prelude::*;

use crate::errors::{ApiError, ApiResult, ErrorCode};

verus! {

#[verifier::external_type_specification]
#[verifier::external_body]
pub struct ExRegex(regex::Regex);

/// Whether the regex crate accepts `pattern` as a pattern.
pub uninterp spec fn regex_valid(pattern: Seq<char>) -> bool;

/// The byte range of the leftmost match of `pattern` in the UTF-8 decoding
/// of `haystack`, or `None` when there is no match or the bytes are not
/// valid UTF-8.
pub uninterp spec fn regex_find_range(pattern: Seq<char>, haystack: Seq<u8>) -> Option<
    (usize, usize),
>;

/// A pattern together with its compiled form.  The compiled form is built
/// from the source exactly once, in `new`.
#[derive(Debug)]
pub struct Pattern {
    source: String,
    compiled: regex::Regex,
}

impl View for Pattern {
    type V = Seq<char>;

    closed spec fn view(&self) -> Seq<char> {
        self.source@
    }
}

/// Relies on regex::Regex::new: it accepts exactly the syntactically valid
/// patterns of the crate's syntax.
#[verifier::external_body]
fn compile_regex(pattern: &str) -> (r: Option<regex::Regex>)
    ensures
        r is Some <==> regex_valid(pattern@),
{
    regex::Regex::new(pattern).ok()
}

impl Pattern {
    /// Compile a pattern; an invalid one is refused with `invalid_argument`.
    pub fn new(pattern: &str) -> (r: ApiResult<Pattern>)
        ensures
            r is Ok <==> regex_valid(pattern@),
            r is Ok ==> r.unwrap()@ == pattern@,
            r is Err ==> r.unwrap_err().error_code == ErrorCode::InvalidArgument
                && r.unwrap_err().message@ == "Invalid regex"@,
    {
        match compile_regex(pattern) {
            Some(re) => Ok(Pattern { source: pattern.to_owned(), compiled: re }),
            None => Err(ApiError::new(ErrorCode::InvalidArgument, "Invalid regex".to_owned())),
        }
    }

    /// Relies on regex::Regex::find over the UTF-8 view of the bytes: the
    /// leftmost match is a function of the pattern and the bytes alone, and
    /// lies within the bytes.  Bytes that are not valid UTF-8 are never
    /// searched and never match.
    #[verifier::external_body]
    pub(crate) fn find_in(&self, haystack: &[u8]) -> (r: Option<(usize, usize)>)
        ensures
            r == regex_find_range(self@, haystack@),
            r is Some ==> r.unwrap().0 <= r.unwrap().1 <= haystack@.len(),
    {
        match std::str::from_utf8(haystack) {
            Ok(text) => self.compiled.find(text).map(|m| (m.start(), m.end())),
            Err(_) => None,
        }
    }

    /// Whether the pattern matches anywhere in the bytes.
    pub fn is_match_bytes(&self, haystack: &[u8]) -> (r: bool)
        ensures
            r == (regex_find_range(self@, haystack@) is Some),
    {
        self.find_in(haystack).is_some()
    }

    /// The pattern source.
    pub fn source_str(&self) -> (r: &str)
        ensures
            r@ == self@,
    {
        self.source.as_str()
    }
}

} // verus!
