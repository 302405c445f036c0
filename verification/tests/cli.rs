use ahsh::{languages, Cli, LanguagesError, LaunchEnv, ModuleEntry, ValidationError};

fn strings(items: &[&str]) -> Vec<String> {
    items.iter().map(|item| item.to_string()).collect()
}

fn file(name: &str) -> ModuleEntry {
    ModuleEntry { name: name.to_string(), is_file: true }
}

fn directory(name: &str) -> ModuleEntry {
    ModuleEntry { name: name.to_string(), is_file: false }
}

#[test]
fn supported_request_is_prepared_for_launch() {
    let listing = vec![file("python.nix"), file("go.nix")];
    let result = languages(
        Cli { language: strings(&["python"]) },
        &listing,
        "{\"python\": [\"gcc\", \"make\"]}",
    );
    assert_eq!(
        result,
        Ok(LaunchEnv {
            languages: "[\"python\"]".to_string(),
            packages: "[\"gcc\",\"make\"]".to_string(),
        })
    );
}

#[test]
fn unsupported_request_is_not_prepared() {
    let listing = vec![file("python.nix")];
    let result = languages(
        Cli { language: strings(&["python", "cobol"]) },
        &listing,
        "{\"python\": [\"gcc\", \"make\"]}",
    );
    assert_eq!(
        result,
        Err(LanguagesError::Unsupported(ValidationError { invalid: strings(&["cobol"]) }))
    );
}

#[test]
fn empty_request_is_prepared_with_empty_lists() {
    let listing = vec![file("python.nix")];
    let expected = Ok(LaunchEnv { languages: "[]".to_string(), packages: "[]".to_string() });
    assert_eq!(
        languages(Cli { language: Vec::new() }, &listing, "{\"python\": [\"gcc\"]}"),
        expected
    );
    assert_eq!(languages(Cli { language: Vec::new() }, &Vec::new(), "{}"), expected);
}

#[test]
fn request_is_resolved_in_its_own_order() {
    let listing = vec![directory("c"), file("go.nix"), file("python.nix"), file("lua.nix")];
    let result = languages(
        Cli { language: strings(&["python", "lua", "c", "python"]) },
        &listing,
        "{\"c\": [\"gcc\"], \"python\": [\"gcc\", \"make\"], \"go\": [\"git\"]}",
    );
    assert_eq!(
        result,
        Ok(LaunchEnv {
            languages: "[\"python\",\"lua\",\"c\",\"python\"]".to_string(),
            packages: "[\"gcc\",\"make\",\"gcc\",\"gcc\",\"make\"]".to_string(),
        })
    );
}

#[test]
fn file_name_with_extension_is_no_language() {
    let listing = vec![file("python.nix")];
    let result = languages(Cli { language: strings(&["python.nix"]) }, &listing, "{}");
    assert_eq!(
        result,
        Err(LanguagesError::Unsupported(ValidationError { invalid: strings(&["python.nix"]) }))
    );
}

#[test]
fn malformed_table_ends_the_run() {
    let listing = vec![file("python.nix")];
    match languages(Cli { language: strings(&["python"]) }, &listing, "{\"python\": ") {
        Err(LanguagesError::Table(error)) => {
            assert_eq!(error.detail, "EOF while parsing a value at line 1 column 11")
        }
        other => panic!("the table is malformed, yet the run gave {:?}", other),
    }
}

#[test]
fn unsupported_request_is_reported_before_the_table_is_read() {
    let listing = vec![file("python.nix")];
    let result = languages(Cli { language: strings(&["cobol"]) }, &listing, "not a table");
    assert_eq!(
        result,
        Err(LanguagesError::Unsupported(ValidationError { invalid: strings(&["cobol"]) }))
    );
}
