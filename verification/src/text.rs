//! Rendering of string lists for people to read.

use vstd::prelude::*;

verus! {

/// What `{:?}` prints for a list of strings: the items in square brackets,
/// each quoted and escaped as the standard library's `Debug` does it.
pub uninterp spec fn debug_text(items: Seq<Seq<char>>) -> Seq<char>;

/// Formats a list of strings with the standard library's `Debug`.
///
/// Trusted: the body is a single `format!("{:?}", ..)`, and the contract only
/// gives its output a name, as a function of the strings in the list.
#[verifier::external_body]
pub(crate) fn debug_list(items: &Vec<String>) -> (text: String)
    ensures
        text@ == debug_text(items.deep_view()),
{
    format!("{:?}", items)
}

} // verus!
