//! One leaf failure: what went wrong, where, and on which value; and its
//! three renderings.
use vstd::prelude::*;
use vstd::string::*;
use crate::data::{
    field_of,
    fields_model,
    get_field,
    lemma_dict_model,
    Data,
    DataModel,
    InputValue,
    InputValueModel,
};
use crate::error_type::{CustomError, CustomErrorModel, ErrorType, ErrorTypeModel};
use crate::failure::{InputError, Mismatch, RenderError, RequiredField};
use crate::kind::ErrorMode;
use crate::location::{
    location_record,
    location_text,
    parse_location,
    LocItem,
    LocItemModel,
    Location,
};

verus! {

/// What a leaf failure stands for, raw or public.
pub struct LineErrorModel {
    pub error_type: ErrorTypeModel,
    pub location: Seq<LocItemModel>,
    pub input_value: InputValueModel,
}

/// A leaf failure as the validation of one value raises it.
#[derive(Debug, PartialEq, Eq)]
pub struct ValLineError {
    pub error_type: ErrorType,
    pub location: Location,
    pub input_value: InputValue,
}

/// A leaf failure as an aggregate holds it and hands it out.
#[derive(Debug, PartialEq, Eq)]
pub struct PyLineError {
    pub error_type: ErrorType,
    pub location: Location,
    pub input_value: InputValue,
}

impl View for ValLineError {
    type V = LineErrorModel;

    open spec fn view(&self) -> LineErrorModel {
        LineErrorModel {
            error_type: self.error_type@,
            location: self.location@,
            input_value: self.input_value@,
        }
    }
}

impl View for PyLineError {
    type V = LineErrorModel;

    open spec fn view(&self) -> LineErrorModel {
        LineErrorModel {
            error_type: self.error_type@,
            location: self.location@,
            input_value: self.input_value@,
        }
    }
}

/// The text of a value as a report shows it: as it is up to fifty
/// characters; beyond that its first twenty-five characters, three dots,
/// and its last twenty-four.
pub open spec fn truncated(text: Seq<char>) -> Seq<char> {
    if text.len() > 50 {
        text.subrange(0, 25) + "..."@ + text.subrange(text.len() - 24, text.len() as int)
    } else {
        text
    }
}

/// The message as a report shows it: the message itself, or words that
/// say why it could not be rendered.
pub open spec fn shown_message(message: Result<Seq<char>, RenderError>) -> Seq<char> {
    match message {
        Ok(m) => m,
        Err(e) => "(error rendering message: "@ + e.text() + ")"@,
    }
}

impl LineErrorModel {
    /// The failure with `prefix` put before its location.
    pub open spec fn with_prefix(self, prefix: Seq<LocItemModel>) -> LineErrorModel {
        LineErrorModel { location: prefix + self.location, ..self }
    }

    /// The address at which the kind of the failure is documented.
    pub open spec fn url(self, url_prefix: Seq<char>) -> Seq<char> {
        url_prefix + self.error_type.type_string()
    }

    /// Whether a record or a report of the failure names a documentation
    /// address: a prefix must be given and the kind must be built in.
    pub open spec fn shows_url(self, url_prefix: Option<Seq<char>>) -> bool {
        url_prefix is Some && !self.error_type.is_custom()
    }

    /// Whether a record of the failure holds its context.
    pub open spec fn shows_context(self, include_context: bool) -> bool {
        include_context && self.error_type.context() is Some
    }

    /// The entries of the record of the failure, given its rendered
    /// message: `type`, `loc`, `msg` and `input`, then `ctx` and `url`
    /// where they are shown.
    pub open spec fn record_fields(
        self,
        message: Seq<char>,
        url_prefix: Option<Seq<char>>,
        include_context: bool,
    ) -> Seq<(Seq<char>, DataModel)> {
        seq![
            ("type"@, DataModel::Str(self.error_type.type_string())),
            ("loc"@, location_record(self.location)),
            ("msg"@, DataModel::Str(message)),
            ("input"@, self.input_value.value),
        ] + (if self.shows_context(include_context) {
            seq![("ctx"@, self.error_type.context()->0)]
        } else {
            Seq::empty()
        }) + (if self.shows_url(url_prefix) {
            seq![("url"@, DataModel::Str(self.url(url_prefix->0)))]
        } else {
            Seq::empty()
        })
    }

    /// The record of the failure, or why its message cannot be rendered.
    pub open spec fn record(
        self,
        url_prefix: Option<Seq<char>>,
        include_context: bool,
        mode: ErrorMode,
    ) -> Result<DataModel, RenderError> {
        match self.error_type.message(mode) {
            Ok(message) => Ok(
                DataModel::Dict(self.record_fields(message, url_prefix, include_context)),
            ),
            Err(e) => Err(e),
        }
    }

    /// The part of the diagnostic text that names the type of the
    /// offending value: there where the host could tell it, else empty.
    pub open spec fn shown_type(self) -> Seq<char> {
        match self.input_value.type_label {
            Some(name) => ", input_type="@ + name,
            None => Seq::empty(),
        }
    }

    /// The diagnostic text of the failure: its location, two spaces, its
    /// message, and in square brackets its type string, the text of the
    /// offending value as the host shows it and, where the host could
    /// tell it, the name of its type; then, where an address is shown, a
    /// second line that names it.
    pub open spec fn pretty(self, mode: ErrorMode, url_prefix: Option<Seq<char>>) -> Seq<char> {
        location_text(self.location) + "  "@ + shown_message(self.error_type.message(mode))
            + " [type="@ + self.error_type.type_string() + ", input_value="@ + truncated(
            self.input_value.repr,
        ) + self.shown_type() + (if self.shows_url(url_prefix) {
            "]\n    For further information visit "@ + self.url(url_prefix->0)
        } else {
            "]"@
        })
    }

    /// The kind that a record names under `type`: a string names a
    /// built-in kind, whose context stands under `ctx`; a record of the
    /// shape of a custom error stands for that error.
    pub open spec fn parse_type(fields: Seq<(Seq<char>, DataModel)>) -> Result<
        ErrorTypeModel,
        InputError,
    > {
        match field_of(fields, "type"@) {
            None => Err(InputError::MissingField(RequiredField::Type)),
            Some(DataModel::Str(name)) => match field_of(fields, "ctx"@) {
                None => ErrorTypeModel::build(name, None),
                Some(DataModel::Dict(context)) => ErrorTypeModel::build(name, Some(context)),
                Some(_) => Err(InputError::TypeMismatch(Mismatch::Context)),
            },
            Some(other) => match CustomErrorModel::parse(other) {
                Some(custom_error) => Ok(ErrorTypeModel::CustomError { custom_error }),
                None => Err(InputError::TypeMismatch(Mismatch::Type)),
            },
        }
    }

    /// The leaf failure that a raw value stands for, on the given input.
    /// The value must be a record; `type` and `loc` must be there and be
    /// well formed. Where no input is given, the failure is on nothing.
    pub open spec fn parse(raw: DataModel, input: Option<InputValueModel>) -> Result<
        LineErrorModel,
        InputError,
    > {
        match raw {
            DataModel::Dict(fields) => match Self::parse_type(fields) {
                Err(e) => Err(e),
                Ok(error_type) => match field_of(fields, "loc"@) {
                    None => Err(InputError::MissingField(RequiredField::Loc)),
                    Some(raw_location) => match parse_location(raw_location) {
                        Err(e) => Err(e),
                        Ok(location) => Ok(
                            LineErrorModel {
                                error_type,
                                location,
                                input_value: match input {
                                    Some(given) => given,
                                    None => InputValueModel::none(),
                                },
                            },
                        ),
                    },
                },
            },
            _ => Err(InputError::TypeMismatch(Mismatch::Record)),
        }
    }
}

/// Appends to `out` the text of a value as a report shows it.
pub fn push_truncated(out: &mut String, text: &str)
    ensures
        final(out)@ == old(out)@ + truncated(text@),
{
    let len = text.unicode_len();
    if len > 50 {
        out.append(text.substring_char(0, 25));
        out.append("...");
        out.append(text.substring_char(len - 24, len));
        assert(out@ =~= old(out)@ + truncated(text@));
    } else {
        out.append(text);
    }
}

impl ValLineError {
    /// The raw failure of the given kind at the given place on the given
    /// value.
    pub fn new(error_type: ErrorType, location: Location, input_value: InputValue) -> (r:
        ValLineError)
        ensures
            r.error_type == error_type,
            r.location == location,
            r.input_value == input_value,
    {
        ValLineError { error_type, location, input_value }
    }

    /// The failure one level further out: `outer` is put before its
    /// location.
    pub fn with_outer_location(self, outer: LocItem) -> (r: ValLineError)
        ensures
            r@ == self@.with_prefix(seq![outer@]),
    {
        let location = self.location.with_outer(outer);
        ValLineError { error_type: self.error_type, location, input_value: self.input_value }
    }

    /// The failure as an aggregate holds it.
    pub fn into_line_error(self) -> (r: PyLineError)
        ensures
            r@ == self@,
    {
        PyLineError {
            error_type: self.error_type,
            location: self.location,
            input_value: self.input_value,
        }
    }
}

impl Clone for PyLineError {
    fn clone(&self) -> (r: Self)
        ensures
            r@ == self@,
    {
        PyLineError {
            error_type: self.error_type.clone(),
            location: self.location.clone(),
            input_value: self.input_value.clone(),
        }
    }
}

impl PyLineError {
    /// The failure of the given kind at the given place on the given
    /// value.
    pub fn new(error_type: ErrorType, location: Location, input_value: InputValue) -> (r:
        PyLineError)
        ensures
            r.error_type == error_type,
            r.location == location,
            r.input_value == input_value,
    {
        PyLineError { error_type, location, input_value }
    }

    /// The failure as the validation of a value raises it.
    pub fn into_val_line_error(self) -> (r: ValLineError)
        ensures
            r@ == self@,
    {
        ValLineError {
            error_type: self.error_type,
            location: self.location,
            input_value: self.input_value,
        }
    }

    /// The leaf failure that `value` stands for, on the input that the
    /// host described; where the record names no input, the failure is on
    /// nothing. Fails where `value` is not a record, where `type` or `loc`
    /// is absent, where `type` is neither the name of a built-in kind nor
    /// a custom error, where the context under `ctx` does not fit the
    /// kind, and where `loc` is not a path.
    pub fn try_from(value: &Data, input: Option<InputValue>) -> (r: Result<
        PyLineError,
        InputError,
    >)
        ensures
            match r {
                Ok(e) => LineErrorModel::parse(
                    value@,
                    match input {
                        Some(given) => Some(given@),
                        None => None,
                    },
                ) == Ok::<LineErrorModel, InputError>(e@),
                Err(err) => LineErrorModel::parse(
                    value@,
                    match input {
                        Some(given) => Some(given@),
                        None => None,
                    },
                ) == Err::<LineErrorModel, InputError>(err),
            },
    {
        let fields = match value {
            Data::Dict(fields) => fields,
            _ => {
                return Err(InputError::TypeMismatch(Mismatch::Record));
            },
        };
        proof {
            lemma_dict_model(*fields);
        }
        let error_type = match get_field(fields, "type") {
            None => {
                return Err(InputError::MissingField(RequiredField::Type));
            },
            Some(Data::Str(name)) => {
                let built = match get_field(fields, "ctx") {
                    None => ErrorType::new(name.as_str(), None),
                    Some(Data::Dict(context)) => {
                        proof {
                            lemma_dict_model(*context);
                        }
                        ErrorType::new(name.as_str(), Some(context))
                    },
                    Some(_) => {
                        return Err(InputError::TypeMismatch(Mismatch::Context));
                    },
                };
                match built {
                    Ok(error_type) => error_type,
                    Err(e) => {
                        return Err(e);
                    },
                }
            },
            Some(other) => match CustomError::try_from(other) {
                Some(custom_error) => ErrorType::new_custom_error(custom_error),
                None => {
                    return Err(InputError::TypeMismatch(Mismatch::Type));
                },
            },
        };
        let location = match get_field(fields, "loc") {
            None => {
                return Err(InputError::MissingField(RequiredField::Loc));
            },
            Some(raw_location) => match Location::try_from(raw_location) {
                Ok(location) => location,
                Err(e) => {
                    return Err(e);
                },
            },
        };
        let input_value = match input {
            Some(given) => given,
            None => InputValue::none(),
        };
        Ok(PyLineError { error_type, location, input_value })
    }

    /// A copy of the failure with `prefix` put before its location. The
    /// failure itself is left as it is.
    pub fn with_prefix(&self, prefix: &Location) -> (r: PyLineError)
        ensures
            r@ == self@.with_prefix(prefix@),
    {
        PyLineError {
            error_type: self.error_type.clone(),
            location: self.location.with_prefix(prefix),
            input_value: self.input_value.clone(),
        }
    }

    /// The address at which the kind of the failure is documented, under
    /// the given prefix.
    pub fn get_error_url(&self, url_prefix: &str) -> (r: String)
        ensures
            r@ == self@.url(url_prefix@),
    {
        let mut url = String::from_str(url_prefix);
        let type_string = self.error_type.type_string();
        url.append(type_string.as_str());
        url
    }

    /// The record of the failure: `type`, `loc`, `msg` and `input`; then
    /// `ctx` if context is asked for and the kind has one; then `url` if
    /// a prefix is given and the kind is built in. Fails only where the
    /// message cannot be rendered.
    pub fn as_dict(&self, url_prefix: Option<&str>, include_context: bool, error_mode: &ErrorMode) -> (r:
        Result<Data, RenderError>)
        ensures
            match r {
                Ok(record) => self@.record(
                    match url_prefix {
                        Some(p) => Some(p@),
                        None => None,
                    },
                    include_context,
                    *error_mode,
                ) == Ok::<DataModel, RenderError>(record@),
                Err(e) => self@.record(
                    match url_prefix {
                        Some(p) => Some(p@),
                        None => None,
                    },
                    include_context,
                    *error_mode,
                ) == Err::<DataModel, RenderError>(e),
            },
    {
        let ghost prefix_model: Option<Seq<char>> = match url_prefix {
            Some(p) => Some(p@),
            None => None,
        };
        let message = match self.error_type.render_message(*error_mode) {
            Ok(message) => message,
            Err(e) => {
                return Err(e);
            },
        };
        let ghost wanted = self@.record_fields(message@, prefix_model, include_context);
        let mut fields: Vec<(String, Data)> = Vec::new();
        fields.push((String::from_str("type"), Data::Str(self.error_type.type_string())));
        fields.push((String::from_str("loc"), self.location.to_record()));
        fields.push((String::from_str("msg"), Data::Str(message)));
        fields.push((String::from_str("input"), self.input_value.value.clone()));
        if include_context {
            match self.error_type.context_record() {
                Some(context) => {
                    fields.push((String::from_str("ctx"), context));
                },
                None => {},
            }
        }
        match url_prefix {
            Some(prefix) => {
                if !self.error_type.is_custom() {
                    fields.push((String::from_str("url"), Data::Str(self.get_error_url(prefix))));
                }
            },
            None => {},
        }
        proof {
            assert(fields_model(fields@) =~= wanted);
            lemma_dict_model(fields);
        }
        Ok(Data::Dict(fields))
    }

    /// The diagnostic text of the failure. A message that cannot be
    /// rendered is replaced by words that say so; the text is produced
    /// all the same. The offending value is shown by the text that the
    /// host gave for it, and its type is named where the host could tell.
    pub fn pretty(&self, error_mode: &ErrorMode, url_prefix: Option<&str>) -> (r: String)
        ensures
            r@ == self@.pretty(
                *error_mode,
                match url_prefix {
                    Some(p) => Some(p@),
                    None => None,
                },
            ),
    {
        let ghost prefix_model: Option<Seq<char>> = match url_prefix {
            Some(p) => Some(p@),
            None => None,
        };
        let mut output = String::new();
        self.location.push_text(&mut output);
        output.append("  ");
        match self.error_type.render_message(*error_mode) {
            Ok(message) => {
                output.append(message.as_str());
            },
            Err(e) => {
                output.append("(error rendering message: ");
                output.append(e.message());
                output.append(")");
            },
        }
        assert(output@ =~= location_text(self@.location) + "  "@ + shown_message(
            self@.error_type.message(*error_mode),
        ));
        output.append(" [type=");
        let type_string = self.error_type.type_string();
        output.append(type_string.as_str());
        output.append(", input_value=");
        push_truncated(&mut output, self.input_value.repr.as_str());
        match &self.input_value.type_label {
            Some(name) => {
                output.append(", input_type=");
                output.append(name.as_str());
            },
            None => {},
        }
        let ghost body = location_text(self@.location) + "  "@ + shown_message(
            self@.error_type.message(*error_mode),
        ) + " [type="@ + self@.error_type.type_string() + ", input_value="@ + truncated(
            self@.input_value.repr,
        ) + self@.shown_type();
        assert(output@ =~= body);
        let with_url = match url_prefix {
            Some(_) => !self.error_type.is_custom(),
            None => false,
        };
        if with_url {
            let prefix = match url_prefix {
                Some(p) => p,
                None => "",
            };
            output.append("]\n    For further information visit ");
            let url = self.get_error_url(prefix);
            output.append(url.as_str());
            assert(output@ =~= body + ("]\n    For further information visit "@ + self@.url(
                prefix_model->0,
            )));
        } else {
            output.append("]");
        }
        output
    }
}

} // verus!
