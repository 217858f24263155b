use validation_errors::data::Data;
use validation_errors::error_type::{CustomError, ErrorType};
use validation_errors::failure::{ContextProblem, InputError, Mismatch, RenderError, RequiredField};
use validation_errors::kind::{ErrorKind, ErrorMode};

fn ctx(entries: Vec<(&str, Data)>) -> Vec<(String, Data)> {
    entries.into_iter().map(|(k, v)| (k.to_string(), v)).collect()
}

#[test]
fn mode_names() {
    assert_eq!(ErrorMode::try_from(None), Ok(ErrorMode::Python));
    assert_eq!(ErrorMode::try_from(Some("python")), Ok(ErrorMode::Python));
    assert_eq!(ErrorMode::try_from(Some("json")), Ok(ErrorMode::Json));
    assert_eq!(ErrorMode::try_from(Some("JSON")), Err(InputError::UnknownMode));
    assert_eq!(ErrorMode::try_from(Some("")), Err(InputError::UnknownMode));
}

#[test]
fn every_kind_is_found_under_its_name() {
    let kinds = [
        ErrorKind::Missing,
        ErrorKind::ExtraForbidden,
        ErrorKind::NoneRequired,
        ErrorKind::BoolType,
        ErrorKind::IntType,
        ErrorKind::IntParsing,
        ErrorKind::StringType,
        ErrorKind::StringTooShort,
        ErrorKind::StringTooLong,
        ErrorKind::ListType,
        ErrorKind::DictType,
        ErrorKind::GreaterThan,
        ErrorKind::LessThan,
        ErrorKind::TooShort,
        ErrorKind::TooLong,
    ];
    for kind in kinds {
        assert_eq!(ErrorKind::lookup(kind.name()), Some(kind));
    }
    assert_eq!(ErrorKind::Missing.name(), "missing");
    assert_eq!(ErrorKind::StringTooShort.name(), "string_too_short");
    assert_eq!(ErrorKind::lookup("missing "), None);
    assert_eq!(ErrorKind::lookup(""), None);
    assert_eq!(ErrorKind::lookup("custom_error"), None);
}

#[test]
fn unknown_kind_is_a_lookup_error() {
    assert_eq!(ErrorType::new("no_such_kind", None), Err(InputError::UnknownKind));
    assert_eq!(
        ErrorType::new("no_such_kind", Some(&ctx(vec![("gt", Data::Int(1))]))),
        Err(InputError::UnknownKind)
    );
}

#[test]
fn context_must_fit_the_kind() {
    assert_eq!(
        ErrorType::new("greater_than", None),
        Err(InputError::InvalidContext(ContextProblem::Required))
    );
    assert_eq!(
        ErrorType::new("greater_than", Some(&ctx(vec![("lt", Data::Int(1))]))),
        Err(InputError::InvalidContext(ContextProblem::Absent))
    );
    assert_eq!(
        ErrorType::new("greater_than", Some(&ctx(vec![("gt", Data::List(vec![]))]))),
        Err(InputError::InvalidContext(ContextProblem::Shape))
    );
    assert_eq!(
        ErrorType::new(
            "too_short",
            Some(&ctx(vec![
                ("field_type", Data::Str("List".to_string())),
                ("min_length", Data::Str("3".to_string())),
                ("actual_length", Data::Int(1)),
            ]))
        ),
        Err(InputError::InvalidContext(ContextProblem::Shape))
    );
}

#[test]
fn built_error_keeps_kind_and_context() {
    let context = ctx(vec![("gt", Data::Int(5))]);
    let e = ErrorType::new("greater_than", Some(&context)).unwrap();
    assert_eq!(e, ErrorType::Known { kind: ErrorKind::GreaterThan, context: context.clone() });
    assert_eq!(e.type_string(), "greater_than");
    assert!(!e.is_custom());
    assert_eq!(e.context_record(), Some(Data::Dict(context)));
    let plain = ErrorType::new("missing", None).unwrap();
    assert_eq!(plain, ErrorType::Known { kind: ErrorKind::Missing, context: vec![] });
    assert_eq!(plain.context_record(), None);
    let given = ErrorType::new("missing", Some(&ctx(vec![("gt", Data::Int(1))]))).unwrap();
    assert_eq!(given, ErrorType::Known { kind: ErrorKind::Missing, context: vec![] });
    assert_eq!(given.context_record(), None);
}

#[test]
fn messages_of_plain_kinds() {
    let cases = [
        ("missing", "Field required"),
        ("extra_forbidden", "Extra inputs are not permitted"),
        ("bool_type", "Input should be a valid boolean"),
        ("int_type", "Input should be a valid integer"),
        ("int_parsing", "Input should be a valid integer, unable to parse string as an integer"),
        ("string_type", "Input should be a valid string"),
    ];
    for (name, message) in cases {
        let e = ErrorType::new(name, None).unwrap();
        assert_eq!(e.render_message(ErrorMode::Python), Ok(message.to_string()));
        assert_eq!(e.render_message(ErrorMode::Json), Ok(message.to_string()));
    }
}

#[test]
fn messages_that_depend_on_the_mode() {
    let cases = [
        ("none_required", "Input should be None", "Input should be null"),
        ("list_type", "Input should be a valid list", "Input should be a valid array"),
        ("dict_type", "Input should be a valid dictionary", "Input should be an object"),
    ];
    for (name, python, json) in cases {
        let e = ErrorType::new(name, None).unwrap();
        assert_eq!(e.render_message(ErrorMode::Python), Ok(python.to_string()));
        assert_eq!(e.render_message(ErrorMode::Json), Ok(json.to_string()));
    }
}

#[test]
fn messages_with_context_values() {
    let e = ErrorType::new("greater_than", Some(&ctx(vec![("gt", Data::Int(-5))]))).unwrap();
    assert_eq!(e.render_message(ErrorMode::Python), Ok("Input should be greater than -5".to_string()));
    let e = ErrorType::new("less_than", Some(&ctx(vec![("lt", Data::Str("2020-01-01".to_string()))])))
        .unwrap();
    assert_eq!(
        e.render_message(ErrorMode::Json),
        Ok("Input should be less than 2020-01-01".to_string())
    );
    let e = ErrorType::new("string_too_short", Some(&ctx(vec![("min_length", Data::Int(3))])))
        .unwrap();
    assert_eq!(
        e.render_message(ErrorMode::Python),
        Ok("String should have at least 3 characters".to_string())
    );
    let e = ErrorType::new("string_too_long", Some(&ctx(vec![("max_length", Data::Int(10))])))
        .unwrap();
    assert_eq!(
        e.render_message(ErrorMode::Python),
        Ok("String should have at most 10 characters".to_string())
    );
}

#[test]
fn plural_follows_the_count() {
    let many = ErrorType::new(
        "too_short",
        Some(&ctx(vec![
            ("field_type", Data::Str("List".to_string())),
            ("min_length", Data::Int(3)),
            ("actual_length", Data::Int(1)),
        ])),
    )
    .unwrap();
    assert_eq!(
        many.render_message(ErrorMode::Python),
        Ok("List should have at least 3 items after validation, not 1".to_string())
    );
    let one = ErrorType::new(
        "too_long",
        Some(&ctx(vec![
            ("field_type", Data::Str("Set".to_string())),
            ("max_length", Data::Int(1)),
            ("actual_length", Data::Int(2)),
        ])),
    )
    .unwrap();
    assert_eq!(
        one.render_message(ErrorMode::Python),
        Ok("Set should have at most 1 item after validation, not 2".to_string())
    );
    let none = ErrorType::new(
        "too_long",
        Some(&ctx(vec![
            ("field_type", Data::Str("Set".to_string())),
            ("max_length", Data::Int(0)),
            ("actual_length", Data::Int(2)),
        ])),
    )
    .unwrap();
    assert_eq!(
        none.render_message(ErrorMode::Python),
        Ok("Set should have at most 0 items after validation, not 2".to_string())
    );
}

#[test]
fn malformed_context_fails_to_render() {
    let absent = ErrorType::Known { kind: ErrorKind::GreaterThan, context: vec![] };
    assert_eq!(absent.render_message(ErrorMode::Python), Err(RenderError::MissingValue));
    let shape = ErrorType::Known {
        kind: ErrorKind::GreaterThan,
        context: ctx(vec![("gt", Data::Null)]),
    };
    assert_eq!(shape.render_message(ErrorMode::Json), Err(RenderError::MalformedValue));
    assert_eq!(RenderError::MissingValue.message(), "a value of the context is missing");
    assert_eq!(RenderError::MalformedValue.message(), "a value of the context is malformed");
}

#[test]
fn custom_error_is_kept_verbatim() {
    let custom = CustomError::new(
        "my_error".to_string(),
        "this is {not} substituted".to_string(),
        Some(ctx(vec![("not", Data::Int(1))])),
    );
    let e = ErrorType::new_custom_error(custom.clone());
    assert_eq!(e, ErrorType::CustomError { custom_error: custom });
    assert!(e.is_custom());
    assert_eq!(e.type_string(), "my_error");
    assert_eq!(e.render_message(ErrorMode::Python), Ok("this is {not} substituted".to_string()));
    assert_eq!(e.render_message(ErrorMode::Json), Ok("this is {not} substituted".to_string()));
    assert_eq!(e.context_record(), Some(Data::Dict(ctx(vec![("not", Data::Int(1))]))));
    let bare = ErrorType::new_custom_error(CustomError::new(
        "my_error".to_string(),
        "m".to_string(),
        None,
    ));
    assert_eq!(bare.context_record(), None);
}

#[test]
fn custom_error_from_a_value() {
    let raw = Data::Custom {
        error_type: "my_error".to_string(),
        message: "It went wrong".to_string(),
        context: Some(ctx(vec![("n", Data::Int(2))])),
    };
    let custom = CustomError::new(
        "my_error".to_string(),
        "It went wrong".to_string(),
        Some(ctx(vec![("n", Data::Int(2))])),
    );
    assert_eq!(CustomError::try_from(&raw), Some(custom.clone()));
    assert_eq!(custom.to_value(), raw);
    let bare = CustomError::new("my_error".to_string(), "m".to_string(), None);
    assert_eq!(CustomError::try_from(&bare.to_value()), Some(bare));
}

#[test]
fn a_mapping_is_no_custom_error() {
    let mapping = Data::Dict(ctx(vec![
        ("type", Data::Str("my_error".to_string())),
        ("message", Data::Str("It went wrong".to_string())),
    ]));
    assert_eq!(CustomError::try_from(&mapping), None);
    assert_eq!(CustomError::try_from(&Data::Int(1)), None);
    assert_eq!(CustomError::try_from(&Data::Str("my_error".to_string())), None);
}

#[test]
fn required_fields_have_their_keys() {
    assert_eq!(RequiredField::Type.name(), "type");
    assert_eq!(RequiredField::Loc.name(), "loc");
}

#[test]
fn input_errors_say_what_was_wrong() {
    assert_eq!(InputError::MissingField(RequiredField::Type).message(), "type");
    assert_eq!(InputError::MissingField(RequiredField::Loc).message(), "loc");
    assert_eq!(
        InputError::TypeMismatch(Mismatch::Record).message(),
        "an item should be an aggregate or a record"
    );
    assert_eq!(
        InputError::TypeMismatch(Mismatch::Type).message(),
        "`type` should be a `str` or `PydanticCustomError`"
    );
    assert_eq!(InputError::TypeMismatch(Mismatch::Context).message(), "`ctx` should be a record");
    assert_eq!(InputError::TypeMismatch(Mismatch::Location).message(), "a location should be a list");
    assert_eq!(
        InputError::TypeMismatch(Mismatch::LocationItem).message(),
        "an item of a location should be a string or an integer"
    );
    assert_eq!(InputError::UnknownKind.message(), "the name is not that of a kind of error");
    assert_eq!(
        InputError::InvalidContext(ContextProblem::Required).message(),
        "errors of this kind require a context"
    );
    assert_eq!(
        InputError::InvalidContext(ContextProblem::Absent).message(),
        "a value is required in the context"
    );
    assert_eq!(
        InputError::InvalidContext(ContextProblem::Shape).message(),
        "a value of the context should be a string or an integer"
    );
    assert_eq!(InputError::UnknownMode.message(), "the mode should be `python` or `json`");
}
