//! Pattern matching by regular expressions.

use vstd::prelude::*;

verus! {

/// What a search of `text` for the regular expression `pattern` captures in
/// its first group: the part of `text` that the group matched in the leftmost
/// match of the whole pattern. Nothing where `pattern` is no regular
/// expression, where `text` holds no match, or where the group took no part
/// in the match.
pub uninterp spec fn first_group(pattern: Seq<char>, text: Seq<char>) -> Option<Seq<char>>;

/// Compiles `pattern` with `regex::Regex::new`, searches `text` with
/// `Regex::captures`, and copies out the first group with `Captures::get(1)`
/// and `Match::as_str`.
///
/// Not proved: that the outcome is the same for the same pattern and text,
/// which is all that the contract claims by naming it. A pattern that does
/// not compile gives `None`, as does a text without a match.
#[verifier::external_body]
pub(crate) fn capture_first_group(pattern: &str, text: &str) -> (out: Option<String>)
    ensures
        out.deep_view() == first_group(pattern@, text@),
{
    let re = regex::Regex::new(pattern).ok()?;
    let caps = re.captures(text)?;
    let group = caps.get(1)?;
    Some(group.as_str().to_string())
}

} // verus!
