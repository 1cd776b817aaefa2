//! Matching text against regular expressions.

use vstd::prelude::*;

verus! {

/// Whether the regular expression `pattern` matches somewhere in `text`,
/// in the syntax and with the semantics of the `regex` crate; `None` when
/// the pattern does not compile.
pub uninterp spec fn regex_search(pattern: Seq<char>, text: Seq<char>) -> Option<bool>;

/// Calls `regex::Regex::new` and then `Regex::is_match`.
///
/// Trusted: the outcome depends on the pattern and the text alone.
#[verifier::external_body]
pub(crate) fn regex_is_match(pattern: &str, text: &str) -> (found: Option<bool>)
    ensures
        found == regex_search(pattern@, text@),
{
    match regex::Regex::new(pattern) {
        Ok(compiled) => Some(compiled.is_match(text)),
        Err(_) => None,
    }
}

} // verus!
