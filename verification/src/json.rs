//! The boundary to `serde_json`: the two conversions between JSON text and
//! plain lists that the library relies on, and the names that the contracts
//! use for their results.

use crate::packages::table_of_entries;
use std::collections::HashMap;
use vstd::prelude::*;

verus! {

/// The error type of `serde_json`, carried through as an opaque value.
#[verifier::external_type_specification]
#[verifier::external_body]
pub struct ExJsonError(serde_json::Error);

/// What `serde_json::from_str` makes of a text when asked for a map from
/// strings to lists of strings: the map, or `None` where it reports an error.
pub uninterp spec fn parsed_table(text: Seq<char>) -> Option<Map<Seq<char>, Seq<Seq<char>>>>;

/// What `serde_json::to_string` makes of a list of strings: the JSON text.
pub uninterp spec fn json_array_text(items: Seq<Seq<char>>) -> Seq<char>;

/// Parses a JSON object whose values are arrays of strings.
///
/// Trusted: the body calls `serde_json::from_str` for a
/// `HashMap<String, Vec<String>>` and hands the map's entries out as a list,
/// in whatever order the map yields them. The contract gives the parsed map
/// a name, as a function of the text alone, and says that the entries handed
/// out make up that map; it promises nothing about which texts parse.
#[verifier::external_body]
pub(crate) fn parse_table_entries(text: &str) -> (r: Result<
    Vec<(String, Vec<String>)>,
    serde_json::Error,
>)
    ensures
        match r {
            Ok(entries) => parsed_table(text@) == Some(table_of_entries(entries.deep_view())),
            Err(_) => parsed_table(text@) is None,
        },
{
    let parsed: Result<HashMap<String, Vec<String>>, serde_json::Error> = serde_json::from_str(
        text,
    );
    match parsed {
        Ok(table) => Ok(table.into_iter().collect()),
        Err(error) => Err(error),
    }
}

/// Encodes a list of strings as a JSON array.
///
/// Trusted: the body is a single call of `serde_json::to_string`. The
/// contract says that the call returns a text for every list of strings, and
/// gives that text a name, as a function of the strings in the list. The
/// serializer writes into a byte vector and reports no error but its
/// writer's, and neither a list nor a string is refused by its `Serialize`
/// impl, so there is no list on which the call fails.
#[verifier::external_body]
pub(crate) fn encode_list(items: &Vec<String>) -> (r: Result<String, serde_json::Error>)
    ensures
        r is Ok,
        r matches Ok(text) ==> text@ == json_array_text(items.deep_view()),
{
    serde_json::to_string(items)
}

/// Renders a `serde_json` error for a diagnostic.
///
/// Trusted: the body is the error's `Display` output; nothing is claimed of
/// the text.
#[verifier::external_body]
pub(crate) fn describe(error: &serde_json::Error) -> (detail: String) {
    error.to_string()
}

} // verus!
