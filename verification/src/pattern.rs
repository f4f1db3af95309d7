//! Regular expressions, matched by the `regex` crate.

use vstd::prelude::*;

verus! {

/// The error of the `regex` crate for a pattern that it cannot compile.
#[verifier::external_type_specification]
#[verifier::external_body]
pub struct ExRegexError(regex::Error);

/// Whether `Regex::new` accepts `pattern`.
pub uninterp spec fn regex_compiles(pattern: Seq<char>) -> bool;

/// What `Regex::captures` finds in `haystack` for the compiled `pattern`:
/// nothing where the pattern does not match, else one entry for each capture
/// group of the leftmost match, in the order of their opening parentheses
/// and with the whole match as entry 0; a group that took no part in the
/// match has no text.
pub uninterp spec fn regex_captures(pattern: Seq<char>, haystack: Seq<char>) -> Option<
    Seq<Option<Seq<char>>>,
>;

/// The text of each capture group, as sequences of characters.
pub open spec fn groups_view(groups: Option<Vec<Option<String>>>) -> Option<Seq<Option<Seq<char>>>> {
    match groups {
        None => None,
        Some(v) => Some(
            Seq::new(
                v@.len(),
                |i: int|
                    match v@[i] {
                        None => None,
                        Some(text) => Some(text@),
                    },
            ),
        ),
    }
}

/// Compiles `pattern` with `Regex::new` and searches `haystack` with
/// `Regex::captures`; the groups come from `Captures::iter` and
/// `Match::as_str`.
///
/// The call fails exactly where the crate rejects the pattern. Both the
/// verdict on the pattern and the groups found are functions of the two
/// texts alone; the contract names them and claims no more.
#[verifier::external_body]
pub(crate) fn captures(pattern: &str, haystack: &str) -> (r: Result<
    Option<Vec<Option<String>>>,
    regex::Error,
>)
    ensures
        r is Ok <==> regex_compiles(pattern@),
        r matches Ok(groups) ==> groups_view(groups) == regex_captures(pattern@, haystack@),
{
    let re = regex::Regex::new(pattern)?;
    let found = match re.captures(haystack) {
        Some(found) => found,
        None => return Ok(None),
    };
    let mut groups = Vec::new();
    for group in found.iter() {
        groups.push(
            match group {
                Some(found) => Some(found.as_str().to_string()),
                None => None,
            },
        );
    }
    Ok(Some(groups))
}

} // verus!
