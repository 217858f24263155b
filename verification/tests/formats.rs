use std::sync::Arc;
use validation_errors::data::{Data, InputValue};
use validation_errors::error_type::{CustomError, ErrorType};
use validation_errors::kind::ErrorMode;
use validation_errors::line_error::PyLineError;
use validation_errors::location::{LocItem, Location};
use validation_errors::report::ValidationError;
use validation_errors::url::UrlSettings;

fn key(s: &str) -> LocItem {
    LocItem::Key(s.to_string())
}

fn text(s: &str) -> Data {
    Data::Str(s.to_string())
}

fn settings() -> UrlSettings {
    UrlSettings::new("https://errors.example.dev/", "2.0", None)
}

fn user_report() -> ValidationError {
    ValidationError::new(
        vec![PyLineError::new(
            ErrorType::new("missing", None).unwrap(),
            Location::new(vec![key("user"), key("name")]),
            InputValue::new(Data::Dict(vec![]), "{}".to_string(), Some("dict".to_string())),
        )],
        "User".to_string(),
        ErrorMode::Python,
    )
}

fn rich_report() -> ValidationError {
    let inner = ValidationError::new(
        vec![PyLineError::new(
            ErrorType::new("greater_than", Some(&vec![("gt".to_string(), Data::Int(5))])).unwrap(),
            Location::new(vec![key("age")]),
            InputValue::new(
                Data::Dict(vec![
                    ("z".to_string(), Data::List(vec![Data::Int(1), Data::Null, Data::Bool(true)])),
                    ("a".to_string(), text("q\"uote\n")),
                ]),
                "{'z': [1, None, True], 'a': 'q\"uote\\n'}".to_string(),
                Some("dict".to_string()),
            ),
        )],
        "Inner".to_string(),
        ErrorMode::Python,
    );
    ValidationError::new_with_val_errors(
        vec![Arc::new(PyLineError::new(
            ErrorType::new_custom_error(CustomError::new(
                "my_error".to_string(),
                "It went wrong".to_string(),
                Some(vec![("n".to_string(), Data::Int(-2))]),
            )),
            Location::new(vec![LocItem::Index(0)]),
            InputValue::new(Data::Int(7), "7".to_string(), Some("int".to_string())),
        ))],
        vec![Arc::new(inner)],
        "Outer".to_string(),
        ErrorMode::Python,
        Location::new(vec![key("users"), LocItem::Index(3)]),
    )
}

#[test]
fn compact_json_of_one_failure() {
    assert_eq!(
        user_report().json(&settings(), None, true, true).unwrap(),
        "[{\"type\":\"missing\",\"loc\":[\"user\",\"name\"],\"msg\":\"Field required\",\"input\":{},\"url\":\"https://errors.example.dev/2.0/v/missing\"}]"
    );
}

#[test]
fn pretty_json_of_one_failure() {
    let expected = "[\n  {\n    \"type\": \"missing\",\n    \"loc\": [\n      \"user\",\n      \"name\"\n    ],\n    \"msg\": \"Field required\",\n    \"input\": {},\n    \"url\": \"https://errors.example.dev/2.0/v/missing\"\n  }\n]";
    assert_eq!(user_report().json(&settings(), Some(2), true, true).unwrap(), expected);
}

#[test]
fn indent_width_is_the_callers() {
    let expected = "[\n    {\n        \"type\": \"missing\",\n        \"loc\": [\n            \"user\",\n            \"name\"\n        ],\n        \"msg\": \"Field required\",\n        \"input\": {}\n    }\n]";
    assert_eq!(user_report().json(&settings(), Some(4), false, true).unwrap(), expected);
    let flat = "[\n{\n\"type\": \"missing\",\n\"loc\": [\n\"user\",\n\"name\"\n],\n\"msg\": \"Field required\",\n\"input\": {}\n}\n]";
    assert_eq!(user_report().json(&settings(), Some(0), false, true).unwrap(), flat);
}

#[test]
fn json_of_no_failures_is_the_empty_array() {
    let empty = ValidationError::new(vec![], "E".to_string(), ErrorMode::Python);
    assert_eq!(empty.json(&settings(), None, true, true).unwrap(), "[]");
    assert_eq!(empty.json(&settings(), Some(2), true, true).unwrap(), "[]");
}

#[test]
fn json_keeps_field_order_and_projects_values() {
    assert_eq!(
        rich_report().json(&settings(), None, true, true).unwrap(),
        "[{\"type\":\"my_error\",\"loc\":[0],\"msg\":\"It went wrong\",\"input\":7,\"ctx\":{\"n\":-2}},{\"type\":\"greater_than\",\"loc\":[\"users\",3,\"age\"],\"msg\":\"Input should be greater than 5\",\"input\":{\"z\":[1,null,true],\"a\":\"q\\\"uote\\n\"},\"ctx\":{\"gt\":5},\"url\":\"https://errors.example.dev/2.0/v/greater_than\"}]"
    );
    assert_eq!(
        rich_report().json(&settings(), None, false, false).unwrap(),
        "[{\"type\":\"my_error\",\"loc\":[0],\"msg\":\"It went wrong\",\"input\":7},{\"type\":\"greater_than\",\"loc\":[\"users\",3,\"age\"],\"msg\":\"Input should be greater than 5\",\"input\":{\"z\":[1,null,true],\"a\":\"q\\\"uote\\n\"}}]"
    );
}

#[test]
fn scenario_indent_changes_whitespace_only() {
    let report = rich_report();
    let compact = report.json(&settings(), None, true, true).unwrap();
    let pretty = report.json(&settings(), Some(2), true, true).unwrap();
    assert_ne!(compact, pretty);
    let a: serde_json::Value = serde_json::from_str(&compact).unwrap();
    let b: serde_json::Value = serde_json::from_str(&pretty).unwrap();
    assert_eq!(a, b);
    assert_eq!(a.as_array().map(|items| items.len()), Some(2));
    let keys: Vec<&String> = a[1].as_object().unwrap().keys().collect();
    assert_eq!(keys, vec!["type", "loc", "msg", "input", "ctx", "url"]);
}

#[test]
fn json_agrees_with_the_records() {
    let report = rich_report();
    let records = report.errors(&settings(), true, true).unwrap();
    let parsed: serde_json::Value =
        serde_json::from_str(&report.json(&settings(), None, true, true).unwrap()).unwrap();
    let items = parsed.as_array().unwrap();
    assert_eq!(items.len(), records.len());
    for (item, record) in items.iter().zip(records.iter()) {
        match record {
            Data::Dict(fields) => {
                let keys: Vec<&String> = item.as_object().unwrap().keys().collect();
                let names: Vec<&String> = fields.iter().map(|(k, _)| k).collect();
                assert_eq!(keys, names);
            }
            _ => panic!("a record was owed"),
        }
    }
}

#[test]
fn a_custom_error_as_a_value_has_no_json() {
    let report = ValidationError::new(
        vec![PyLineError::new(
            ErrorType::new("missing", None).unwrap(),
            Location::empty(),
            InputValue::new(
                Data::List(vec![Data::Custom {
                    error_type: "my_error".to_string(),
                    message: "m".to_string(),
                    context: None,
                }]),
                "[my_error]".to_string(),
                Some("list".to_string()),
            ),
        )],
        "T".to_string(),
        ErrorMode::Python,
    );
    let failure = report.json(&settings(), None, true, true).unwrap_err();
    assert_eq!(
        failure.message,
        "Error serializing ValidationError to JSON: a custom error has no form in JSON"
    );
    assert_eq!(report.errors(&settings(), false, false).map(|records| records.len()), Ok(1));
}
