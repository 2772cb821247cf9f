//! Regular-expression searches, done by the `regex` crate. What a search
//! returns is not proved here: it has a name, and the callers' contracts
//! speak of that name.

use vstd::prelude::*;

verus! {

/// What capture group `group` matched in the leftmost match of the regular
/// expression `pattern` in `text`. Absent when the pattern does not compile,
/// when nothing matches, when the pattern has no such group, and when the
/// group took no part in the match.
pub uninterp spec fn first_capture(pattern: Seq<char>, group: nat, text: Seq<char>) -> Option<
    Seq<char>,
>;

/// Searches `text` for the leftmost match of `pattern` and hands back what
/// capture group `group` matched in it.
///
/// Trusted: compiles the pattern with `regex::Regex::new` and searches with
/// `Regex::captures`; the contract only names the result.
#[verifier::external_body]
pub(crate) fn capture_first(pattern: &str, group: usize, text: &str) -> (found: Option<String>)
    ensures
        found.deep_view() == first_capture(pattern@, group as nat, text@),
{
    let re = regex::Regex::new(pattern).ok()?;
    re.captures(text)?.get(group).map(|m| m.as_str().to_string())
}

} // verus!
