//! Trusted view of the regular-expression engine: pattern validity, matching,
//! and first-group capture, each a function of the pattern and text alone.

use vstd::prelude::*;

verus! {

/// Whether `pattern` is a valid regular expression, that is, whether it
/// compiles.
pub uninterp spec fn regex_valid(pattern: Seq<char>) -> bool;

/// Whether the regular expression `pattern` matches anywhere in `text`.
pub uninterp spec fn regex_match(pattern: Seq<char>, text: Seq<char>) -> bool;

/// The text of the first capture group at the leftmost match of `pattern`
/// in `text`, if the pattern matches and its first group participates in
/// the match.
pub uninterp spec fn regex_capture(pattern: Seq<char>, text: Seq<char>) -> Option<Seq<char>>;

/// Relies on regex::Regex::new: whether a pattern compiles is a function of
/// the pattern text alone, and compilation does not panic.
#[verifier::external_body]
pub(crate) fn regex_compile_ok(pattern: &str) -> (r: bool)
    ensures
        r == regex_valid(pattern@),
{
    regex::Regex::new(pattern).is_ok()
}

/// Relies on regex::Regex::new and regex::Regex::is_match: whether a valid
/// pattern matches is a function of the pattern and the text alone.
#[verifier::external_body]
pub(crate) fn regex_is_match(pattern: &str, text: &str) -> (r: bool)
    requires
        regex_valid(pattern@),
    ensures
        r == regex_match(pattern@, text@),
{
    match regex::Regex::new(pattern) {
        Ok(re) => re.is_match(text),
        Err(_) => false,
    }
}

/// Relies on regex::Regex::new, regex::Regex::captures and
/// regex::Captures::get: the first capture group at the leftmost match is a
/// function of the pattern and the text alone.
#[verifier::external_body]
pub(crate) fn regex_capture_first(pattern: &str, text: &str) -> (r: Option<String>)
    requires
        regex_valid(pattern@),
    ensures
        match r {
            Some(s) => regex_capture(pattern@, text@) == Some(s@),
            None => regex_capture(pattern@, text@) is None,
        },
{
    let re = match regex::Regex::new(pattern) {
        Ok(re) => re,
        Err(_) => {
            return None;
        },
    };
    let caps = re.captures(text)?;
    let group = caps.get(1)?;
    Some(group.as_str().to_owned())
}

} // verus!
