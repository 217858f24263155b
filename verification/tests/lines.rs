use validation_errors::data::{Data, InputValue};
use validation_errors::error_type::{CustomError, ErrorType};
use validation_errors::failure::{ContextProblem, InputError, Mismatch, RenderError, RequiredField};
use validation_errors::kind::{ErrorKind, ErrorMode};
use validation_errors::line_error::{push_truncated, PyLineError, ValLineError};
use validation_errors::location::{LocItem, Location};

const PREFIX: &str = "https://errors.example.dev/2.0/v/";

fn key(s: &str) -> LocItem {
    LocItem::Key(s.to_string())
}

fn text(s: &str) -> Data {
    Data::Str(s.to_string())
}

fn host(value: Data, repr: &str, label: Option<&str>) -> InputValue {
    InputValue::new(value, repr.to_string(), label.map(|l| l.to_string()))
}

fn record(entries: Vec<(&str, Data)>) -> Data {
    Data::Dict(entries.into_iter().map(|(k, v)| (k.to_string(), v)).collect())
}

fn missing_at_user_name() -> PyLineError {
    PyLineError::new(
        ErrorType::new("missing", None).unwrap(),
        Location::new(vec![key("user"), key("name")]),
        host(Data::Dict(vec![]), "{}", Some("dict")),
    )
}

fn custom_leaf() -> PyLineError {
    PyLineError::new(
        ErrorType::new_custom_error(CustomError::new(
            "my_error".to_string(),
            "It went wrong".to_string(),
            Some(vec![("n".to_string(), Data::Int(2))]),
        )),
        Location::new(vec![LocItem::Index(0)]),
        host(Data::Int(7), "7", Some("int")),
    )
}

fn truncate(s: &str) -> String {
    let mut out = String::new();
    push_truncated(&mut out, s);
    out
}

#[test]
fn fifty_characters_are_never_truncated() {
    let fifty = "a".repeat(25) + &"b".repeat(25);
    assert_eq!(truncate(&fifty), fifty);
    assert_eq!(truncate(""), "");
    assert_eq!(truncate("short"), "short");
}

#[test]
fn fifty_one_characters_become_fifty_two() {
    let value = "0123456789abcdefghijklmnopqrstuvwxyzABCDEFGHIJKLMNO";
    assert_eq!(value.chars().count(), 51);
    let shown = truncate(value);
    assert_eq!(shown, "0123456789abcdefghijklmno...rstuvwxyzABCDEFGHIJKLMNO");
    assert_eq!(shown.chars().count(), 52);
}

#[test]
fn truncation_counts_characters_not_bytes() {
    let value = "é".repeat(30) + &"ü".repeat(30);
    let shown = truncate(&value);
    assert_eq!(shown, "é".repeat(25) + "..." + &"ü".repeat(24));
    let fifty = "é".repeat(50);
    assert_eq!(truncate(&fifty), fifty);
}

#[test]
fn truncation_appends_to_what_is_there() {
    let mut out = String::from("value=");
    push_truncated(&mut out, &"x".repeat(60));
    assert_eq!(out, "value=".to_string() + &"x".repeat(25) + "..." + &"x".repeat(24));
}

#[test]
fn with_prefix_leaves_the_failure_untouched() {
    let leaf = missing_at_user_name();
    let prefix = Location::new(vec![key("items"), LocItem::Index(2)]);
    let moved = leaf.with_prefix(&prefix);
    assert_eq!(
        moved.location,
        Location::new(vec![key("items"), LocItem::Index(2), key("user"), key("name")])
    );
    assert_eq!(moved.error_type, leaf.error_type);
    assert_eq!(moved.input_value, leaf.input_value);
    assert_eq!(leaf, missing_at_user_name());
    assert_eq!(leaf.with_prefix(&Location::empty()), leaf);
}

#[test]
fn error_url_is_prefix_and_type_string() {
    assert_eq!(missing_at_user_name().get_error_url(PREFIX), PREFIX.to_string() + "missing");
    assert_eq!(custom_leaf().get_error_url("x/"), "x/my_error");
}

#[test]
fn record_has_fixed_field_order() {
    let r = missing_at_user_name().as_dict(Some(PREFIX), true, &ErrorMode::Python);
    assert_eq!(
        r,
        Ok(record(vec![
            ("type", text("missing")),
            ("loc", Data::List(vec![text("user"), text("name")])),
            ("msg", text("Field required")),
            ("input", Data::Dict(vec![])),
            ("url", text("https://errors.example.dev/2.0/v/missing")),
        ]))
    );
}

#[test]
fn record_without_url_and_with_context() {
    let leaf = PyLineError::new(
        ErrorType::new("greater_than", Some(&vec![("gt".to_string(), Data::Int(5))])).unwrap(),
        Location::new(vec![key("age")]),
        host(Data::Int(3), "3", Some("int")),
    );
    let with_ctx = leaf.as_dict(None, true, &ErrorMode::Python);
    assert_eq!(
        with_ctx,
        Ok(record(vec![
            ("type", text("greater_than")),
            ("loc", Data::List(vec![text("age")])),
            ("msg", text("Input should be greater than 5")),
            ("input", Data::Int(3)),
            ("ctx", record(vec![("gt", Data::Int(5))])),
        ]))
    );
    let both = leaf.as_dict(Some("p/"), true, &ErrorMode::Python);
    assert_eq!(
        both,
        Ok(record(vec![
            ("type", text("greater_than")),
            ("loc", Data::List(vec![text("age")])),
            ("msg", text("Input should be greater than 5")),
            ("input", Data::Int(3)),
            ("ctx", record(vec![("gt", Data::Int(5))])),
            ("url", text("p/greater_than")),
        ]))
    );
    let bare = leaf.as_dict(None, false, &ErrorMode::Python);
    assert_eq!(
        bare,
        Ok(record(vec![
            ("type", text("greater_than")),
            ("loc", Data::List(vec![text("age")])),
            ("msg", text("Input should be greater than 5")),
            ("input", Data::Int(3)),
        ]))
    );
}

#[test]
fn record_of_custom_kind_never_has_url() {
    let with_prefix = custom_leaf().as_dict(Some(PREFIX), true, &ErrorMode::Python);
    let without = custom_leaf().as_dict(None, true, &ErrorMode::Python);
    assert_eq!(with_prefix, without);
    assert_eq!(
        with_prefix,
        Ok(record(vec![
            ("type", text("my_error")),
            ("loc", Data::List(vec![Data::Int(0)])),
            ("msg", text("It went wrong")),
            ("input", Data::Int(7)),
            ("ctx", record(vec![("n", Data::Int(2))])),
        ]))
    );
}

#[test]
fn record_fails_where_the_message_cannot_be_rendered() {
    let leaf = PyLineError::new(
        ErrorType::Known { kind: ErrorKind::LessThan, context: vec![] },
        Location::empty(),
        InputValue::none(),
    );
    assert_eq!(leaf.as_dict(Some(PREFIX), true, &ErrorMode::Python), Err(RenderError::MissingValue));
}

#[test]
fn pretty_text_with_url() {
    assert_eq!(
        missing_at_user_name().pretty(&ErrorMode::Python, Some(PREFIX)),
        "user.name\n  Field required [type=missing, input_value={}, input_type=dict]\n    For further information visit https://errors.example.dev/2.0/v/missing"
    );
}

#[test]
fn pretty_text_without_url() {
    assert_eq!(
        missing_at_user_name().pretty(&ErrorMode::Python, None),
        "user.name\n  Field required [type=missing, input_value={}, input_type=dict]"
    );
}

#[test]
fn pretty_text_of_custom_kind_never_has_url() {
    let expected = "0\n  It went wrong [type=my_error, input_value=7, input_type=int]";
    assert_eq!(custom_leaf().pretty(&ErrorMode::Python, Some(PREFIX)), expected);
    assert_eq!(custom_leaf().pretty(&ErrorMode::Json, None), expected);
}

#[test]
fn pretty_text_at_the_root_has_no_location_line() {
    let leaf = PyLineError::new(
        ErrorType::new("none_required", None).unwrap(),
        Location::empty(),
        host(text("x"), "'x'", Some("str")),
    );
    assert_eq!(
        leaf.pretty(&ErrorMode::Json, None),
        "  Input should be null [type=none_required, input_value='x', input_type=str]"
    );
}

#[test]
fn pretty_text_truncates_long_values() {
    let leaf = PyLineError::new(
        ErrorType::new("int_type", None).unwrap(),
        Location::new(vec![key("n")]),
        host(text(&"z".repeat(60)), &("'".to_string() + &"z".repeat(60) + "'"), Some("str")),
    );
    let shown = "'".to_string() + &"z".repeat(24) + "..." + &"z".repeat(23) + "'";
    assert_eq!(
        leaf.pretty(&ErrorMode::Python, None),
        format!("n\n  Input should be a valid integer [type=int_type, input_value={shown}, input_type=str]")
    );
}

#[test]
fn pretty_text_survives_a_message_that_cannot_be_rendered() {
    let leaf = PyLineError::new(
        ErrorType::Known {
            kind: ErrorKind::GreaterThan,
            context: vec![("gt".to_string(), Data::List(vec![]))],
        },
        Location::new(vec![key("age")]),
        host(Data::Int(3), "3", Some("int")),
    );
    assert_eq!(
        leaf.pretty(&ErrorMode::Python, Some("p/")),
        "age\n  (error rendering message: a value of the context is malformed) [type=greater_than, input_value=3, input_type=int]\n    For further information visit p/greater_than"
    );
}

#[test]
fn pretty_text_shows_what_the_host_gave() {
    let leaf = PyLineError::new(
        ErrorType::new("int_type", None).unwrap(),
        Location::new(vec![key("n")]),
        host(text("it's"), "\"it's\"", Some("str")),
    );
    assert_eq!(
        leaf.pretty(&ErrorMode::Python, None),
        "n\n  Input should be a valid integer [type=int_type, input_value=\"it's\", input_type=str]"
    );
}

#[test]
fn pretty_text_without_a_type_name() {
    let leaf = PyLineError::new(
        ErrorType::new("int_type", None).unwrap(),
        Location::new(vec![key("n")]),
        host(text("<object>"), "<object at 0x1>", None),
    );
    assert_eq!(
        leaf.pretty(&ErrorMode::Python, None),
        "n\n  Input should be a valid integer [type=int_type, input_value=<object at 0x1>]"
    );
    assert_eq!(
        leaf.pretty(&ErrorMode::Python, Some("p/")),
        "n\n  Input should be a valid integer [type=int_type, input_value=<object at 0x1>]\n    For further information visit p/int_type"
    );
}

#[test]
fn line_error_from_a_record() {
    let raw = record(vec![
        ("type", text("greater_than")),
        ("loc", Data::List(vec![text("age")])),
        ("input", Data::Int(3)),
        ("ctx", record(vec![("gt", Data::Int(5))])),
    ]);
    assert_eq!(
        PyLineError::try_from(&raw, Some(host(Data::Int(3), "3", Some("int")))),
        Ok(PyLineError::new(
            ErrorType::Known {
                kind: ErrorKind::GreaterThan,
                context: vec![("gt".to_string(), Data::Int(5))],
            },
            Location::new(vec![key("age")]),
            host(Data::Int(3), "3", Some("int")),
        ))
    );
}

#[test]
fn line_error_input_defaults_to_nothing() {
    let raw = record(vec![("loc", Data::List(vec![])), ("type", text("missing"))]);
    assert_eq!(
        PyLineError::try_from(&raw, None),
        Ok(PyLineError::new(
            ErrorType::new("missing", None).unwrap(),
            Location::empty(),
            InputValue::none(),
        ))
    );
}

#[test]
fn line_error_from_a_custom_error_value() {
    let custom = CustomError::new("my_error".to_string(), "It went wrong".to_string(), None);
    let raw = record(vec![
        ("type", custom.to_value()),
        ("loc", Data::List(vec![Data::Int(0)])),
        ("input", Data::Int(7)),
        ("ctx", Data::Int(1)),
    ]);
    assert_eq!(
        PyLineError::try_from(&raw, Some(host(Data::Int(7), "7", Some("int")))),
        Ok(PyLineError::new(
            ErrorType::new_custom_error(custom),
            Location::new(vec![LocItem::Index(0)]),
            host(Data::Int(7), "7", Some("int")),
        ))
    );
}

#[test]
fn a_mapping_under_type_is_a_type_error() {
    let raw = record(vec![
        (
            "type",
            record(vec![("type", text("my_error")), ("message", text("It went wrong"))]),
        ),
        ("loc", Data::List(vec![Data::Int(0)])),
    ]);
    assert_eq!(PyLineError::try_from(&raw, None), Err(InputError::TypeMismatch(Mismatch::Type)));
    let number = record(vec![("type", Data::Int(1)), ("loc", Data::List(vec![text("a")]))]);
    let failure = PyLineError::try_from(&number, None).unwrap_err();
    assert_eq!(failure, InputError::TypeMismatch(Mismatch::Type));
    assert_eq!(failure.message(), "`type` should be a `str` or `PydanticCustomError`");
}

#[test]
fn line_error_construction_failures() {
    assert_eq!(
        PyLineError::try_from(&Data::Int(1), None),
        Err(InputError::TypeMismatch(Mismatch::Record))
    );
    assert_eq!(
        PyLineError::try_from(&record(vec![("loc", Data::List(vec![]))]), None),
        Err(InputError::MissingField(RequiredField::Type))
    );
    assert_eq!(
        PyLineError::try_from(&record(vec![("type", text("missing"))]), None),
        Err(InputError::MissingField(RequiredField::Loc))
    );
    assert_eq!(
        PyLineError::try_from(
            &record(vec![("type", Data::Int(3)), ("loc", Data::List(vec![]))]),
            None
        ),
        Err(InputError::TypeMismatch(Mismatch::Type))
    );
    assert_eq!(
        PyLineError::try_from(
            &record(vec![
                ("type", text("missing")),
                ("ctx", Data::Int(3)),
                ("loc", Data::List(vec![])),
            ]),
            None
        ),
        Err(InputError::TypeMismatch(Mismatch::Context))
    );
    assert_eq!(
        PyLineError::try_from(
            &record(vec![("type", text("nope")), ("loc", Data::List(vec![]))]),
            None
        ),
        Err(InputError::UnknownKind)
    );
    assert_eq!(
        PyLineError::try_from(
            &record(vec![("type", text("greater_than")), ("loc", Data::List(vec![]))]),
            None
        ),
        Err(InputError::InvalidContext(ContextProblem::Required))
    );
    assert_eq!(
        PyLineError::try_from(&record(vec![("type", text("missing")), ("loc", text("a"))]), None),
        Err(InputError::TypeMismatch(Mismatch::Location))
    );
    assert_eq!(
        PyLineError::try_from(
            &record(vec![("type", text("missing")), ("loc", Data::List(vec![Data::Bool(true)]))]),
            None
        ),
        Err(InputError::TypeMismatch(Mismatch::LocationItem))
    );
}

#[test]
fn raw_failure_moves_outwards() {
    let raw = ValLineError::new(
        ErrorType::new("missing", None).unwrap(),
        Location::new(vec![key("name")]),
        InputValue::none(),
    );
    let moved = raw.with_outer_location(LocItem::Index(3));
    assert_eq!(moved.location, Location::new(vec![LocItem::Index(3), key("name")]));
    let line = moved.into_line_error();
    assert_eq!(
        line,
        PyLineError::new(
            ErrorType::new("missing", None).unwrap(),
            Location::new(vec![LocItem::Index(3), key("name")]),
            InputValue::none(),
        )
    );
    let back = line.into_val_line_error();
    assert_eq!(back.location, Location::new(vec![LocItem::Index(3), key("name")]));
    assert_eq!(back.input_value, InputValue::none());
}
