//! Resolves requested programming-language names against the language modules
//! that a development-environment source tree offers, collects the system
//! packages that the chosen languages need, and prepares the two values that
//! an environment launcher receives.
//!
//! The crate performs no I/O. A caller lists the module directory, hands the
//! entries over as plain values, and launches the external tool itself.

pub mod cli;
pub mod discovery;
pub mod json;
pub mod launch;
pub mod packages;
pub mod text;
pub mod validate;

pub use cli::{languages, Cli, LanguagesError, EXIT_UNSUPPORTED};
pub use discovery::{discover_languages, language_of_entry, supported_langs_of_devenv, ModuleEntry};
pub use launch::{launch_env, LaunchEnv};
pub use packages::{
    flatten_pkgs, query_pkgs_of_supported_langs, try_query_pkgs_of_supported_langs, PackageTable,
    TableError,
};
pub use validate::{ensure_languages, ValidationError};
