//! The two services that the regular-expression engine renders: replacing
//! every match of a pattern, and reading a named group of the first match.
//! What the engine answers is not proved here; it is given a name, and the
//! library's contracts speak of that name.

use vstd::prelude::*;
use regex::Regex;

verus! {

/// What an optional string holds.
pub open spec fn view_of(o: Option<String>) -> Option<Seq<char>> {
    match o {
        Some(s) => Some(s@),
        None => None,
    }
}

/// The text that the engine makes of `haystack` by replacing every match of
/// `pattern` with `replacement`; nothing where the engine does not accept
/// `pattern`.
pub uninterp spec fn regex_replaced(
    pattern: Seq<char>,
    haystack: Seq<char>,
    replacement: Seq<char>,
) -> Option<Seq<char>>;

/// The text that the group named `group` matched in the first match of
/// `pattern` in `haystack`; nothing where the engine does not accept
/// `pattern`, where `pattern` does not match, or where no group of that
/// name took part in the match.
pub uninterp spec fn regex_captured(
    pattern: Seq<char>,
    haystack: Seq<char>,
    group: Seq<char>,
) -> Option<Seq<char>>;

/// Compiles `pattern` with `regex::Regex::new` and calls
/// `regex::Regex::replace_all` on `haystack`. The contract claims only that
/// the answer depends on the three texts alone: it is the named result
/// `regex_replaced`, and `None` stands for a pattern that did not compile.
#[verifier::external_body]
pub(crate) fn regex_replace_all(pattern: &str, haystack: &str, replacement: &str) -> (r: Option<
    String,
>)
    ensures
        view_of(r) == regex_replaced(pattern@, haystack@, replacement@),
{
    match Regex::new(pattern) {
        Ok(re) => Some(re.replace_all(haystack, replacement).into_owned()),
        Err(_) => None,
    }
}

/// Compiles `pattern` with `regex::Regex::new`, calls
/// `regex::Regex::captures` on `haystack` and reads the group with
/// `regex::Captures::name`. The contract claims only that the answer
/// depends on the three texts alone: it is the named result
/// `regex_captured`, and `None` stands for a pattern that did not compile,
/// for no match, and for a group that took no part.
#[verifier::external_body]
pub(crate) fn regex_capture(pattern: &str, haystack: &str, group: &str) -> (r: Option<String>)
    ensures
        view_of(r) == regex_captured(pattern@, haystack@, group@),
{
    match Regex::new(pattern) {
        Ok(re) => match re.captures(haystack) {
            Some(caps) => match caps.name(group) {
                Some(m) => Some(m.as_str().to_string()),
                None => None,
            },
            None => None,
        },
        Err(_) => None,
    }
}

} // verus!
