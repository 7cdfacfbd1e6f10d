use vstd::prelude::*;

verus! {

/// Whether `s` parses as a valid phone number.
pub uninterp spec fn phone_is_valid(s: Seq<char>) -> bool;

/// Whether `pattern` is a regular expression that the regex crate accepts.
pub uninterp spec fn regex_compiles(pattern: Seq<char>) -> bool;

/// Whether a compiled `pattern` finds a match in `text`.
pub uninterp spec fn regex_is_match(pattern: Seq<char>, text: Seq<char>) -> bool;

/// Relies on validator's `validate_length` for a `&str`: it counts the
/// characters and compares the count with both bounds.
#[verifier::external_body]
pub(crate) fn length_within(s: &str, min: u64, max: u64) -> (r: bool)
    ensures
        r == (min <= s@.len() && s@.len() <= max),
{
    validator::validate_length(s, Some(min), Some(max), None)
}

/// Relies on validator's `validate_phone`: it parses the number with no default
/// region and reports whether the parsed number is valid.
#[verifier::external_body]
pub(crate) fn valid_phone(s: &str) -> (r: bool)
    ensures
        r == phone_is_valid(s@),
{
    validator::validate_phone(s)
}

/// Relies on regex's `Regex::new` and `Regex::is_match`: compiles `pattern`,
/// then searches `text` with it; `None` where the pattern does not compile.
#[verifier::external_body]
pub(crate) fn pattern_matches(pattern: &str, text: &str) -> (r: Option<bool>)
    ensures
        r.is_some() == regex_compiles(pattern@),
        r matches Some(b) ==> b == regex_is_match(pattern@, text@),
{
    match regex::Regex::new(pattern) {
        Ok(re) => Some(re.is_match(text)),
        Err(_) => None,
    }
}

} // verus!
