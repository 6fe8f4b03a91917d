use rusty_search::command::ParamRule;
use rusty_search::validation::{
    boolean, sql_table, sql_text, validate_string, StringValidation, ValidationError,
};

fn s(t: &str) -> String {
    t.to_string()
}

#[test]
fn identifier_accepts_lower_case_letters() {
    assert!(sql_table(&s("abc")).is_ok());
    assert!(sql_table(&s("myindex")).is_ok());
    assert!(sql_table(&s("z")).is_ok());
}

#[test]
fn identifier_rejects_upper_case() {
    // one case only: the engine resolves table names without regard to
    // ASCII case, so a second spelling of the same name is refused
    assert_eq!(sql_table(&s("ABC")), Err(ValidationError::NotIdentifier));
    assert_eq!(sql_table(&s("MyIndex")), Err(ValidationError::NotIdentifier));
    assert_eq!(sql_table(&s("abC")), Err(ValidationError::NotIdentifier));
}

#[test]
fn identifier_rejects_non_alphabetic() {
    assert_eq!(sql_table(&s("abc1")), Err(ValidationError::NotIdentifier));
    assert_eq!(sql_table(&s("a_b")), Err(ValidationError::NotIdentifier));
    assert_eq!(sql_table(&s("a b")), Err(ValidationError::NotIdentifier));
    assert_eq!(sql_table(&s("a-b")), Err(ValidationError::NotIdentifier));
    assert_eq!(sql_table(&s("1abc")), Err(ValidationError::NotIdentifier));
    assert_eq!(sql_table(&s("abc;")), Err(ValidationError::NotIdentifier));
    assert_eq!(sql_table(&s("`abc`")), Err(ValidationError::NotIdentifier));
}

#[test]
fn identifier_rejects_empty() {
    assert_eq!(sql_table(&s("")), Err(ValidationError::NotIdentifier));
}

#[test]
fn free_text_accepts_ordinary_values() {
    assert!(sql_text(&s("")).is_ok());
    assert!(sql_text(&s("anything at all; even `this`")).is_ok());
}

#[test]
fn boolean_accepts_true_false_and_own_name() {
    assert!(boolean(&s("true"), "create").is_ok());
    assert!(boolean(&s("false"), "create").is_ok());
    assert!(boolean(&s("create"), "create").is_ok());
}

#[test]
fn boolean_rejects_everything_else() {
    assert_eq!(boolean(&s("yes"), "create"), Err(ValidationError::NotBoolean));
    assert_eq!(boolean(&s("True"), "create"), Err(ValidationError::NotBoolean));
    assert_eq!(boolean(&s("TRUE"), "create"), Err(ValidationError::NotBoolean));
    assert_eq!(boolean(&s(""), "create"), Err(ValidationError::NotBoolean));
    assert_eq!(boolean(&s("1"), "create"), Err(ValidationError::NotBoolean));
    assert_eq!(boolean(&s("other"), "create"), Err(ValidationError::NotBoolean));
}

#[test]
fn validate_string_dispatches_by_kind() {
    let table_rule = ParamRule { key: "index", validation: StringValidation::SqlTable, required: true };
    assert!(validate_string(&s("good"), &table_rule).is_ok());
    assert_eq!(
        validate_string(&s("not good"), &table_rule),
        Err(ValidationError::NotIdentifier)
    );
    let ignore_rule = ParamRule { key: "data", validation: StringValidation::Ignore, required: true };
    assert!(validate_string(&s("{\"any\": 1}"), &ignore_rule).is_ok());
    let bool_rule = ParamRule { key: "create", validation: StringValidation::Bool, required: false };
    assert!(validate_string(&s("create"), &bool_rule).is_ok());
    assert_eq!(
        validate_string(&s("nope"), &bool_rule),
        Err(ValidationError::NotBoolean)
    );
}

#[test]
fn validation_error_messages() {
    assert_eq!(
        ValidationError::NotIdentifier.message(),
        "expected a non-empty string of lower-case letters"
    );
    assert_eq!(ValidationError::TooLong.message(), "too long");
    assert_eq!(ValidationError::NotBoolean.message(), "expected true|false");
}
