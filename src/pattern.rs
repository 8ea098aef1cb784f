use vstd::prelude::*;
use crate::exception::{ErrorKind, Exception};

verus! {

/// Whether `pattern` is accepted by the regex crate's parser and compiler.
pub uninterp spec fn pattern_compiles(pattern: Seq<char>) -> bool;

/// Whether the compiled `pattern` matches somewhere in `text`.
pub uninterp spec fn pattern_matches(pattern: Seq<char>, text: Seq<char>) -> bool;

/// Relies on regex::Regex::new, which fails on a pattern that it cannot
/// compile, and on regex::Regex::is_match, which tells whether the pattern
/// matches anywhere in the text.
#[verifier::external_body]
fn regex_is_match(text: &str, pattern: &str) -> (r: Option<bool>)
    ensures
        r is Some <==> pattern_compiles(pattern@),
        r matches Some(b) ==> b == pattern_matches(pattern@, text@),
{
    match regex::Regex::new(pattern) {
        Ok(re) => Some(re.is_match(text)),
        Err(_) => None,
    }
}

/// Whether `regexp` matches `input`; a pattern that does not compile is an
/// `InvalidPattern` error that names it.
pub fn matches(input: &String, regexp: &String) -> (r: Result<bool, Exception>)
    ensures
        r is Ok <==> pattern_compiles(regexp@),
        r matches Ok(b) ==> b == pattern_matches(regexp@, input@),
        r matches Err(e) ==> e.kind == ErrorKind::InvalidPattern && e.message@ == regexp@,
{
    match regex_is_match(input.as_str(), regexp.as_str()) {
        Some(b) => Ok(b),
        None => Err(Exception::new(ErrorKind::InvalidPattern, regexp.clone())),
    }
}

} // verus!
