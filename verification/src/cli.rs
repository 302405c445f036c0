//! The command's run from its arguments to the launcher's input.

use crate::discovery::{discovered, module_extension, supported_langs_of_devenv, ModuleEntry};
use crate::json::{json_array_text, parsed_table};
use crate::launch::{launch_env, LaunchEnv};
use crate::packages::{
    flatten_pkgs, lemma_resolved_empty, resolved, try_query_pkgs_of_supported_langs, TableError,
};
use crate::validate::{
    ensure_languages, lemma_unsupported_empty_iff_all_supported, unsupported, ValidationError,
};
use vstd::prelude::*;

verus! {

/// The exit status of a run whose request names unsupported languages.
pub const EXIT_UNSUPPORTED: i32 = 1;

/// The command line: zero or more language names.
#[derive(Debug, PartialEq, Eq)]
pub struct Cli {
    /// The requested languages, in the order given.
    pub language: Vec<String>,
}

/// Why a run ends without a launch.
#[derive(Debug, PartialEq, Eq)]
pub enum LanguagesError {
    /// The request names languages that are not supported.
    Unsupported(ValidationError),
    /// The language-to-packages table is malformed.
    Table(TableError),
}

/// Runs the command up to the hand-off: validates the requested languages
/// against the listing of the module directory, resolves their packages from
/// the table given as JSON text, and encodes both lists for the launcher.
///
/// The request is validated before the table is read, so an unsupported
/// language is reported even where the table is malformed. An empty request
/// is valid: it is prepared like any other, with two empty lists.
pub fn languages(cli: Cli, entries: &Vec<ModuleEntry>, table_json: &str) -> (r: Result<
    LaunchEnv,
    LanguagesError,
>)
    ensures
        ({
            let requested = cli.language.deep_view();
            let supported = discovered(entries.deep_view(), module_extension()).to_set();
            let invalid = unsupported(requested, supported);
            let table = parsed_table(table_json@);
            match r {
                Err(LanguagesError::Unsupported(e)) => {
                    &&& invalid.len() > 0
                    &&& e.invalid.deep_view() == invalid
                },
                Err(LanguagesError::Table(_)) => {
                    &&& invalid.len() == 0
                    &&& table is None
                },
                Ok(env) => {
                    &&& invalid.len() == 0
                    &&& table is Some
                    &&& env.languages@ == json_array_text(requested)
                    &&& env.packages@ == json_array_text(resolved(requested, table->0))
                },
            }
        }),
        cli.language.len() == 0 && parsed_table(table_json@) is Some ==> {
            &&& r matches Ok(env)
            &&& env.languages@ == json_array_text(Seq::empty())
            &&& env.packages@ == json_array_text(Seq::empty())
        },
{
    let supported = supported_langs_of_devenv(entries);
    proof {
        lemma_unsupported_empty_iff_all_supported(
            cli.language.deep_view(),
            supported.deep_view().to_set(),
        );
    }
    let accepted = match ensure_languages(cli.language, supported) {
        Ok(accepted) => accepted,
        Err(error) => {
            return Err(LanguagesError::Unsupported(error));
        },
    };
    let table = match try_query_pkgs_of_supported_langs(table_json) {
        Ok(table) => table,
        Err(error) => {
            return Err(LanguagesError::Table(error));
        },
    };
    proof {
        if cli.language.len() == 0 {
            assert(accepted.deep_view() =~= Seq::empty());
            lemma_resolved_empty(table@);
        }
    }
    let packages = flatten_pkgs(&accepted, table);
    Ok(launch_env(&accepted, &packages))
}

} // verus!
