//! Preparation of the hand-off to the environment launcher: the validated
//! languages and the resolved packages, each encoded as a JSON array.

use crate::json::{encode_list, json_array_text};
use vstd::prelude::*;

verus! {

/// The two values that the environment launcher receives, each the JSON
/// encoding of a list of strings.
#[derive(Debug, PartialEq, Eq)]
pub struct LaunchEnv {
    /// The validated languages, as a JSON array.
    pub languages: String,
    /// The resolved packages, as a JSON array.
    pub packages: String,
}

/// Encodes the validated languages and the resolved packages for the
/// launcher. Every list of strings has an encoding, so this cannot fail.
pub fn launch_env(languages: &Vec<String>, packages: &Vec<String>) -> (env: LaunchEnv)
    ensures
        env.languages@ == json_array_text(languages.deep_view()),
        env.packages@ == json_array_text(packages.deep_view()),
{
    LaunchEnv { languages: encode(languages), packages: encode(packages) }
}

/// Encodes one list of strings as a JSON array.
fn encode(items: &Vec<String>) -> (text: String)
    ensures
        text@ == json_array_text(items.deep_view()),
{
    match encode_list(items) {
        Ok(text) => text,
        Err(_) => unreached(),
    }
}

} // verus!
