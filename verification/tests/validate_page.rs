use cms_records::store_page_request::{ComponentContent, StorePageRequest};
use cms_records::validation::require_min_length;
use validator::{ValidationErrors, ValidationErrorsKind};

fn request(name: &str, identifier: &str) -> StorePageRequest {
    StorePageRequest {
        name: name.to_string(),
        identifier: identifier.to_string(),
        component_content: Vec::new(),
    }
}

fn messages(errors: &ValidationErrors, field: &str) -> Vec<String> {
    match errors.errors().get(field) {
        Some(ValidationErrorsKind::Field(failures)) => failures
            .iter()
            .map(|failure| failure.message.as_ref().map(|m| m.to_string()).unwrap_or_default())
            .collect(),
        _ => Vec::new(),
    }
}

#[test]
fn empty_name_is_reported_under_name_alone() {
    let errors = request("", "x").validate_errors().unwrap();
    assert!(!errors.is_empty());
    assert_eq!(messages(&errors, "name"), vec!["The name is a required field.".to_string()]);
    assert!(!errors.errors().contains_key("identifier"));
    assert_eq!(errors.errors().len(), 1);
}

#[test]
fn valid_request_yields_no_errors() {
    let errors = request("Home", "home").validate_errors().unwrap();
    assert!(errors.is_empty());
    assert!(errors.errors().is_empty());
    assert_eq!(errors, ValidationErrors::new());
}

#[test]
fn empty_identifier_is_reported_under_identifier_alone() {
    let errors = request("Home", "").validate_errors().unwrap();
    assert_eq!(
        messages(&errors, "identifier"),
        vec!["The identifier is a required field.".to_string()]
    );
    assert!(!errors.errors().contains_key("name"));
}

#[test]
fn both_missing_are_both_reported() {
    let errors = request("", "").validate_errors().unwrap();
    assert_eq!(errors.errors().len(), 2);
    assert_eq!(messages(&errors, "name"), vec!["The name is a required field.".to_string()]);
    assert_eq!(
        messages(&errors, "identifier"),
        vec!["The identifier is a required field.".to_string()]
    );
}

#[test]
fn failure_carries_the_code_and_parameters_of_the_length_rule() {
    let errors = request("", "x").validate_errors().unwrap();
    let by_field = errors.field_errors();
    let failures = by_field.get("name").unwrap();
    assert_eq!(failures.len(), 1);
    assert_eq!(failures[0].code, "length");
    assert_eq!(failures[0].params.get("min").and_then(|min| min.as_u64()), Some(1));
    assert_eq!(failures[0].params.get("value").and_then(|value| value.as_str()), Some(""));
}

#[test]
fn validate_passes_a_valid_request() {
    assert!(request("Home", "home").validate().is_ok());
    assert!(request("H", "h").validate().is_ok());
}

#[test]
fn validate_fails_with_the_failures_of_the_request() {
    let errors = request("", "home").validate().unwrap_err();
    assert_eq!(messages(&errors, "name"), vec!["The name is a required field.".to_string()]);
    assert_eq!(errors, request("", "home").validate_errors().unwrap());
}

#[test]
fn component_content_is_not_validated() {
    let mut page = request("Home", "home");
    page.component_content.push(ComponentContent::default());
    page.component_content.push(ComponentContent {
        id: "1".to_string(),
        name: String::new(),
        identifier: String::new(),
        content: "<p>hello</p>".to_string(),
    });
    assert!(page.validate_errors().unwrap().is_empty());
}

#[test]
fn whitespace_counts_as_a_character() {
    assert!(request(" ", " ").validate_errors().unwrap().is_empty());
}

#[test]
fn length_is_counted_in_characters() {
    let mut errors = ValidationErrors::new();
    require_min_length(&mut errors, "name", "\u{e9}\u{e9}", 2, "too short");
    assert!(errors.is_empty());
    require_min_length(&mut errors, "name", "\u{e9}\u{e9}", 3, "too short");
    assert_eq!(messages(&errors, "name"), vec!["too short".to_string()]);
}

#[test]
fn failures_of_one_field_keep_their_order() {
    let mut errors = ValidationErrors::new();
    require_min_length(&mut errors, "name", "ab", 3, "at least three");
    require_min_length(&mut errors, "name", "ab", 2, "at least two");
    require_min_length(&mut errors, "name", "ab", 5, "at least five");
    require_min_length(&mut errors, "identifier", "", 0, "never fails");
    assert_eq!(
        messages(&errors, "name"),
        vec!["at least three".to_string(), "at least five".to_string()]
    );
    assert!(!errors.errors().contains_key("identifier"));
}

#[test]
fn default_request_fails_on_both_fields() {
    let errors = StorePageRequest::default().validate_errors().unwrap();
    assert_eq!(errors.errors().len(), 2);
}

#[test]
fn aggregate_of_a_pass_is_empty() {
    assert!(cms_records::validation::aggregate(Ok(())).is_empty());
}

#[test]
fn aggregate_hands_failures_on_unchanged() {
    let mut errors = ValidationErrors::new();
    require_min_length(&mut errors, "name", "", 1, "The name is a required field.");
    let nested = ValidationErrors::merge(Err(errors), "child", Err(ValidationErrors::new()));
    let expected = nested.clone().unwrap_err();
    let collected = cms_records::validation::aggregate(nested);
    assert_eq!(collected, expected);
    assert!(matches!(collected.errors().get("child"), Some(ValidationErrorsKind::Struct(_))));
    assert_eq!(messages(&collected, "name"), vec!["The name is a required field.".to_string()]);
}
