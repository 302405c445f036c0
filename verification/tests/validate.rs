use ahsh::{ensure_languages, ValidationError, EXIT_UNSUPPORTED};

fn strings(items: &[&str]) -> Vec<String> {
    items.iter().map(|item| item.to_string()).collect()
}

#[test]
fn supported_request_is_returned_unchanged() {
    let result = ensure_languages(strings(&["python"]), strings(&["python", "go"]));
    assert_eq!(result, Ok(strings(&["python"])));
}

#[test]
fn unsupported_language_is_reported() {
    let result = ensure_languages(strings(&["python", "cobol"]), strings(&["python"]));
    assert_eq!(result, Err(ValidationError { invalid: strings(&["cobol"]) }));
}

#[test]
fn empty_request_is_valid() {
    assert_eq!(ensure_languages(Vec::new(), strings(&["python"])), Ok(Vec::new()));
    assert_eq!(ensure_languages(Vec::new(), Vec::new()), Ok(Vec::new()));
}

#[test]
fn order_and_duplicates_survive_validation() {
    let request = strings(&["go", "python", "go", "c", "python"]);
    let result = ensure_languages(request.clone(), strings(&["c", "python", "go"]));
    assert_eq!(result, Ok(request));
}

#[test]
fn every_unsupported_language_is_listed_in_request_order() {
    let result = ensure_languages(
        strings(&["zig", "python", "cobol", "go", "ada", "cobol"]),
        strings(&["go", "python"]),
    );
    assert_eq!(
        result,
        Err(ValidationError { invalid: strings(&["zig", "cobol", "ada", "cobol"]) })
    );
}

#[test]
fn nothing_is_supported_by_an_empty_set() {
    let result = ensure_languages(strings(&["python", "go"]), Vec::new());
    assert_eq!(result, Err(ValidationError { invalid: strings(&["python", "go"]) }));
}

#[test]
fn supported_set_may_repeat_a_language() {
    let result = ensure_languages(strings(&["go"]), strings(&["go", "python", "go"]));
    assert_eq!(result, Ok(strings(&["go"])));
}

#[test]
fn names_are_compared_exactly() {
    let result = ensure_languages(
        strings(&["Python", "python ", "", "python"]),
        strings(&["python"]),
    );
    assert_eq!(result, Err(ValidationError { invalid: strings(&["Python", "python ", ""]) }));
}

#[test]
fn message_lists_the_unsupported_languages() {
    let error = ValidationError { invalid: strings(&["cobol"]) };
    assert_eq!(error.message(), "Languages [\"cobol\"] are not supported");
}

#[test]
fn message_lists_several_languages_quoted_and_escaped() {
    let error = ValidationError { invalid: strings(&["cobol", "a\"b", "tab\there"]) };
    assert_eq!(
        error.message(),
        "Languages [\"cobol\", \"a\\\"b\", \"tab\\there\"] are not supported"
    );
}

#[test]
fn message_of_a_rejected_request() {
    match ensure_languages(strings(&["python", "cobol", "ada"]), strings(&["python"])) {
        Ok(_) => panic!("the request names unsupported languages"),
        Err(error) => assert_eq!(
            error.message(),
            format!("Languages {:?} are not supported", ["cobol", "ada"])
        ),
    }
}

#[test]
fn rejected_request_exits_with_status_one() {
    assert_eq!(EXIT_UNSUPPORTED, 1);
}
