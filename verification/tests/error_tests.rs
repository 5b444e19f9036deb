use cobase::error::{
    error_code_to_message, errors_to_message, Error, ErrorsKind, FieldError, ParamValue,
    ValidationErrors,
};

fn field(code: &str, message: Option<&str>, params: Vec<(&str, ParamValue)>) -> FieldError {
    FieldError {
        code: code.to_string(),
        message: message.map(|m| m.to_string()),
        params: params.into_iter().map(|(k, v)| (k.to_string(), v)).collect(),
    }
}

fn report(name: &str, kind: ErrorsKind) -> ValidationErrors {
    ValidationErrors { entries: vec![(name.to_string(), kind)] }
}

#[test]
fn own_message_wins() {
    let e = field("length", Some("too short"), vec![("min", ParamValue::UInt(3))]);
    assert_eq!(error_code_to_message(&e), "too short");
}

#[test]
fn length_min_only() {
    let e = field("length", None, vec![("min", ParamValue::UInt(3)), ("value", ParamValue::Text("ab".to_string()))]);
    assert_eq!(error_code_to_message(&e), "must be at least 3 characters long");
}

#[test]
fn length_max_only() {
    let e = field("length", None, vec![("max", ParamValue::UInt(10))]);
    assert_eq!(error_code_to_message(&e), "must be less than or equal to 10 characters long");
}

#[test]
fn length_min_and_max() {
    let e = field("length", None, vec![("max", ParamValue::Int(10)), ("min", ParamValue::UInt(3))]);
    assert_eq!(error_code_to_message(&e), "must be between 3 and 10 characters long");
}

#[test]
fn length_equal() {
    let e = field("length", None, vec![("equal", ParamValue::UInt(5))]);
    assert_eq!(error_code_to_message(&e), "must be equal to 5 characters long");
}

#[test]
fn length_equal_ignored_beside_min() {
    let e = field("length", None, vec![("equal", ParamValue::UInt(5)), ("min", ParamValue::UInt(2))]);
    assert_eq!(error_code_to_message(&e), "must be at least 2 characters long");
}

#[test]
fn length_bound_as_text_is_quoted() {
    let e = field("length", None, vec![("min", ParamValue::Text("a\"b".to_string()))]);
    assert_eq!(error_code_to_message(&e), "must be at least \"a\\\"b\" characters long");
}

#[test]
fn other_code_lists_params() {
    let e = field("range", None, vec![("value", ParamValue::Text("ab".to_string()))]);
    assert_eq!(error_code_to_message(&e), "range [{\"value\": String(\"ab\")}]");
    let e = field(
        "custom",
        None,
        vec![
            ("a", ParamValue::Null),
            ("b", ParamValue::Bool(true)),
            ("c", ParamValue::Int(-2)),
            ("d", ParamValue::UInt(7)),
        ],
    );
    assert_eq!(
        error_code_to_message(&e),
        "custom [{\"a\": Null, \"b\": Bool(true), \"c\": Number(-2), \"d\": Number(7)}]"
    );
    let e = field("email", None, vec![]);
    assert_eq!(error_code_to_message(&e), "email [{}]");
}

#[test]
fn field_report_message() {
    let r = report("name", ErrorsKind::Field(vec![field("length", None, vec![("min", ParamValue::UInt(3))])]));
    assert_eq!(
        errors_to_message(String::new(), &r),
        Some("The field .name must be at least 3 characters long".to_string())
    );
    assert_eq!(
        errors_to_message("root".to_string(), &r),
        Some("The field root.name must be at least 3 characters long".to_string())
    );
}

#[test]
fn nested_report_message() {
    let inner = report("city", ErrorsKind::Field(vec![field("required", Some("is required"), vec![])]));
    let r = report("address", ErrorsKind::Struct(Box::new(inner)));
    assert_eq!(
        errors_to_message(String::new(), &r),
        Some("The field .address.city is required".to_string())
    );
}

#[test]
fn list_report_message() {
    let item = report("name", ErrorsKind::Field(vec![field("length", None, vec![("max", ParamValue::UInt(4))])]));
    let other = report("name", ErrorsKind::Field(vec![field("x", Some("other"), vec![])]));
    let r = report("members", ErrorsKind::List(vec![(2, item), (17, other)]));
    assert_eq!(
        errors_to_message(String::new(), &r),
        Some("The field .members[2].name must be less than or equal to 4 characters long".to_string())
    );
}

#[test]
fn empty_reports_have_no_message() {
    assert_eq!(errors_to_message(String::new(), &ValidationErrors { entries: vec![] }), None);
    assert_eq!(errors_to_message(String::new(), &report("a", ErrorsKind::Field(vec![]))), None);
    assert_eq!(errors_to_message(String::new(), &report("a", ErrorsKind::List(vec![]))), None);
    let empty_inner = report("a", ErrorsKind::Struct(Box::new(ValidationErrors { entries: vec![] })));
    assert_eq!(errors_to_message(String::new(), &empty_inner), None);
    assert_eq!(Error::ValidationErrors(ValidationErrors { entries: vec![] }).to_string(), "");
}

#[test]
fn only_first_entry_is_reported() {
    let r = ValidationErrors {
        entries: vec![
            ("first".to_string(), ErrorsKind::Field(vec![field("a", Some("one"), vec![]), field("b", Some("two"), vec![])])),
            ("second".to_string(), ErrorsKind::Field(vec![field("c", Some("three"), vec![])])),
        ],
    };
    assert_eq!(errors_to_message(String::new(), &r), Some("The field .first one".to_string()));
}

#[test]
fn unknown_error_text() {
    assert_eq!(Error::Unkown("boom".to_string()).to_string(), "boom");
    assert_eq!(Error::from("lost".to_string()), Error::Unkown("lost".to_string()));
    let r = report("n", ErrorsKind::Field(vec![]));
    assert_eq!(Error::from(r), Error::ValidationErrors(report("n", ErrorsKind::Field(vec![]))));
}

#[test]
fn error_from_text_round_trip() {
    let e = Error::from("lost");
    assert_eq!(e, Error::Unkown("lost".to_string()));
    assert_eq!(e.to_string(), "lost");
    assert_eq!(Error::from("gone".to_string()).to_string(), "gone");
    assert_eq!(Error::from("").to_string(), "");
}

#[test]
fn json_strings_are_escaped() {
    let e = field("length", None, vec![("min", ParamValue::Text("a\nb\t\u{1}\\\u{8}\u{c}\r\u{1f}é".to_string()))]);
    assert_eq!(
        error_code_to_message(&e),
        "must be at least \"a\\nb\\t\\u0001\\\\\\b\\f\\r\\u001fé\" characters long"
    );
}

#[test]
fn displayable_errors() {
    assert!(Error::Unkown("x".to_string()).is_displayable());
    let bad = report("name", ErrorsKind::Field(vec![field("length", None, vec![("value", ParamValue::Null)])]));
    let bad_error = Error::ValidationErrors(bad);
    assert!(!bad_error.is_displayable());
    let good = report("name", ErrorsKind::Field(vec![field("length", None, vec![("equal", ParamValue::UInt(2))])]));
    assert!(Error::ValidationErrors(good).is_displayable());
    assert!(field("other", None, vec![]).message_available());
    assert!(field("length", Some("m"), vec![]).message_available());
    assert!(!field("length", None, vec![]).message_available());
    let nested = report("a", ErrorsKind::Struct(Box::new(report("b", ErrorsKind::Field(vec![field("length", None, vec![])])))));
    assert!(!Error::ValidationErrors(nested).is_displayable());
}

#[test]
fn list_reports_smallest_index() {
    let later = report("name", ErrorsKind::Field(vec![field("x", Some("later"), vec![])]));
    let first = report("name", ErrorsKind::Field(vec![field("y", Some("first"), vec![])]));
    let r = report("members", ErrorsKind::List(vec![(5, later), (1, first)]));
    assert_eq!(
        errors_to_message(String::new(), &r),
        Some("The field .members[1].name first".to_string())
    );
    assert!(Error::ValidationErrors(r).is_displayable());
}

#[test]
fn repeated_parameter_names_are_refused() {
    let e = field("length", None, vec![("min", ParamValue::UInt(3)), ("min", ParamValue::UInt(4))]);
    assert!(!e.names_distinct());
    assert!(field("length", None, vec![("min", ParamValue::UInt(3)), ("max", ParamValue::UInt(4))]).names_distinct());
    let r = report("name", ErrorsKind::Field(vec![e]));
    assert!(!Error::ValidationErrors(r).is_displayable());
}
