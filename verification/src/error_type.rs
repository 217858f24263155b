//! The kind of a failure together with what its message is built from:
//! a built-in kind with its context, or a kind that the caller defined.
use vstd::prelude::*;
use vstd::string::*;
use crate::data::{fields_model, lemma_custom_model, lemma_dict_model, Data, DataModel};
use crate::failure::{ContextProblem, InputError, RenderError};
use crate::kind::{render, render_template, ErrorKind, ErrorMode};

verus! {

/// A failure that the caller defined: its own type string, its message as
/// it is to be shown, and the context it was given, if any.
#[derive(Debug, PartialEq, Eq)]
pub struct CustomError {
    pub error_type: String,
    pub message: String,
    pub context: Option<Vec<(String, Data)>>,
}

/// What a [`CustomError`] stands for.
pub struct CustomErrorModel {
    pub error_type: Seq<char>,
    pub message: Seq<char>,
    pub context: Option<Seq<(Seq<char>, DataModel)>>,
}

impl View for CustomError {
    type V = CustomErrorModel;

    open spec fn view(&self) -> CustomErrorModel {
        CustomErrorModel {
            error_type: self.error_type@,
            message: self.message@,
            context: match self.context {
                Some(fields) => Some(fields_model(fields@)),
                None => None,
            },
        }
    }
}

/// A copy of the entries of a record.
pub fn clone_fields(fields: &Vec<(String, Data)>) -> (r: Vec<(String, Data)>)
    ensures
        fields_model(r@) == fields_model(fields@),
{
    let mut out: Vec<(String, Data)> = Vec::new();
    let mut i: usize = 0;
    while i < fields.len()
        invariant
            i <= fields.len(),
            out.len() == i,
            forall|j: int| 0 <= j < i ==> out[j].0@ == fields[j].0@ && out[j].1@ == fields[j].1@,
        decreases fields.len() - i,
    {
        out.push((fields[i].0.clone(), fields[i].1.clone()));
        i += 1;
    }
    assert(fields_model(out@) =~= fields_model(fields@));
    out
}

impl Clone for CustomError {
    fn clone(&self) -> (r: Self)
        ensures
            r@ == self@,
    {
        CustomError {
            error_type: self.error_type.clone(),
            message: self.message.clone(),
            context: match &self.context {
                Some(fields) => Some(clone_fields(fields)),
                None => None,
            },
        }
    }
}

impl CustomErrorModel {
    /// The custom error that a raw value stands for, if it is one.
    pub open spec fn parse(raw: DataModel) -> Option<CustomErrorModel> {
        match raw {
            DataModel::Custom { error_type, message, context } => Some(
                CustomErrorModel { error_type, message, context },
            ),
            _ => None,
        }
    }

    /// The custom error as a value.
    pub open spec fn value(self) -> DataModel {
        DataModel::Custom {
            error_type: self.error_type,
            message: self.message,
            context: self.context,
        }
    }
}

impl CustomError {
    /// A custom error of the given type string and message, with the
    /// given context.
    pub fn new(error_type: String, message: String, context: Option<Vec<(String, Data)>>) -> (r:
        CustomError)
        ensures
            r.error_type == error_type,
            r.message == message,
            r.context == context,
    {
        CustomError { error_type, message, context }
    }

    /// The custom error that `raw` stands for, if it is one. A mapping is
    /// none, whatever it holds.
    pub fn try_from(raw: &Data) -> (r: Option<CustomError>)
        ensures
            match r {
                Some(e) => CustomErrorModel::parse(raw@) == Some(e@),
                None => CustomErrorModel::parse(raw@) is None,
            },
    {
        match raw {
            Data::Custom { error_type, message, context } => {
                proof {
                    lemma_custom_model(*error_type, *message, *context);
                }
                Some(
                    CustomError {
                        error_type: error_type.clone(),
                        message: message.clone(),
                        context: match context {
                            Some(fields) => Some(clone_fields(fields)),
                            None => None,
                        },
                    },
                )
            },
            _ => None,
        }
    }

    /// The custom error as a value, such as a record holds under `type`.
    pub fn to_value(&self) -> (r: Data)
        ensures
            r@ == self@.value(),
    {
        let r = Data::Custom {
            error_type: self.error_type.clone(),
            message: self.message.clone(),
            context: match &self.context {
                Some(fields) => Some(clone_fields(fields)),
                None => None,
            },
        };
        proof {
            lemma_custom_model(r->Custom_error_type, r->Custom_message, r->Custom_context);
        }
        r
    }
}

/// The kind of a failure and what its message is built from.
#[derive(Debug, PartialEq, Eq)]
pub enum ErrorType {
    /// A built-in kind with the values of its context, in the order in
    /// which they were handed over.
    Known { kind: ErrorKind, context: Vec<(String, Data)> },
    /// A kind that the caller defined.
    CustomError { custom_error: CustomError },
}

/// What an [`ErrorType`] stands for.
pub enum ErrorTypeModel {
    Known { kind: ErrorKind, context: Seq<(Seq<char>, DataModel)> },
    CustomError { custom_error: CustomErrorModel },
}

impl View for ErrorType {
    type V = ErrorTypeModel;

    open spec fn view(&self) -> ErrorTypeModel {
        match self {
            ErrorType::Known { kind, context } => ErrorTypeModel::Known {
                kind: *kind,
                context: fields_model(context@),
            },
            ErrorType::CustomError { custom_error } => ErrorTypeModel::CustomError {
                custom_error: custom_error@,
            },
        }
    }
}

impl Clone for ErrorType {
    fn clone(&self) -> (r: Self)
        ensures
            r@ == self@,
    {
        match self {
            ErrorType::Known { kind, context } => ErrorType::Known {
                kind: *kind,
                context: clone_fields(context),
            },
            ErrorType::CustomError { custom_error } => ErrorType::CustomError {
                custom_error: custom_error.clone(),
            },
        }
    }
}

/// What is wrong with a context for a kind, if anything. A kind without
/// context values asks for nothing; a kind with context values needs a
/// context with which its message can be rendered.
pub open spec fn context_problem(kind: ErrorKind, context: Option<Seq<(Seq<char>, DataModel)>>) -> Option<
    ContextProblem,
> {
    if !kind.takes_context() {
        None
    } else {
        match context {
            None => Some(ContextProblem::Required),
            Some(fields) => {
                let template = kind.template(ErrorMode::Python);
                match render_template(template, fields, template.len()) {
                    Ok(_) => None,
                    Err(RenderError::MissingValue) => Some(ContextProblem::Absent),
                    Err(RenderError::MalformedValue) => Some(ContextProblem::Shape),
                }
            },
        }
    }
}

/// The context that an error type of the kind keeps: what was handed
/// over for a kind with context values, nothing for any other.
pub open spec fn kept_context(kind: ErrorKind, context: Option<Seq<(Seq<char>, DataModel)>>) -> Seq<
    (Seq<char>, DataModel),
> {
    match context {
        Some(fields) => if kind.takes_context() {
            fields
        } else {
            Seq::empty()
        },
        None => Seq::empty(),
    }
}

impl ErrorTypeModel {
    /// The error type of the built-in kind named `name` with the given
    /// context. The name must be that of a kind, and for a kind with
    /// context values the context must hold them in the right shape. A
    /// context for a kind without context values is not kept.
    pub open spec fn build(name: Seq<char>, context: Option<Seq<(Seq<char>, DataModel)>>) -> Result<
        ErrorTypeModel,
        InputError,
    > {
        match ErrorKind::by_key(name) {
            None => Err(InputError::UnknownKind),
            Some(kind) => match context_problem(kind, context) {
                Some(problem) => Err(InputError::InvalidContext(problem)),
                None => Ok(ErrorTypeModel::Known { kind, context: kept_context(kind, context) }),
            },
        }
    }

    /// Whether the kind is one that the caller defined.
    pub open spec fn is_custom(self) -> bool {
        self is CustomError
    }

    /// The stable machine name of the kind: for a built-in kind its name,
    /// for a custom one the string that the caller chose.
    pub open spec fn type_string(self) -> Seq<char> {
        match self {
            ErrorTypeModel::Known { kind, .. } => kind.key(),
            ErrorTypeModel::CustomError { custom_error } => custom_error.error_type,
        }
    }

    /// The message in the given mode: for a built-in kind its template
    /// filled with the context, for a custom one the caller's message as
    /// it is, whatever the mode.
    pub open spec fn message(self, mode: ErrorMode) -> Result<Seq<char>, RenderError> {
        match self {
            ErrorTypeModel::Known { kind, context } => render_template(
                kind.template(mode),
                context,
                kind.template(mode).len(),
            ),
            ErrorTypeModel::CustomError { custom_error } => Ok(custom_error.message),
        }
    }

    /// The context as a record, or nothing where there is none.
    pub open spec fn context(self) -> Option<DataModel> {
        match self {
            ErrorTypeModel::Known { context, .. } => if context.len() == 0 {
                None
            } else {
                Some(DataModel::Dict(context))
            },
            ErrorTypeModel::CustomError { custom_error } => match custom_error.context {
                Some(fields) => Some(DataModel::Dict(fields)),
                None => None,
            },
        }
    }
}

impl ErrorType {
    /// The error type of the built-in kind named `kind_name` with the
    /// given context. Fails where the name is not that of a built-in kind,
    /// and where a value that the kind needs is absent from the context or
    /// has the wrong shape.
    pub fn new(kind_name: &str, context: Option<&Vec<(String, Data)>>) -> (r: Result<
        ErrorType,
        InputError,
    >)
        ensures
            match r {
                Ok(e) => ErrorTypeModel::build(
                    kind_name@,
                    match context {
                        Some(fields) => Some(fields_model(fields@)),
                        None => None,
                    },
                ) == Ok::<ErrorTypeModel, InputError>(e@),
                Err(err) => ErrorTypeModel::build(
                    kind_name@,
                    match context {
                        Some(fields) => Some(fields_model(fields@)),
                        None => None,
                    },
                ) == Err::<ErrorTypeModel, InputError>(err),
            },
    {
        let kind = match ErrorKind::lookup(kind_name) {
            Some(kind) => kind,
            None => {
                return Err(InputError::UnknownKind);
            },
        };
        if !kind.needs_context() {
            let e = ErrorType::Known { kind, context: Vec::new() };
            assert(fields_model(e->Known_context@) =~= Seq::empty());
            Ok(e)
        } else {
            match context {
                None => Err(InputError::InvalidContext(ContextProblem::Required)),
                Some(fields) => {
                    let template = kind.segments(ErrorMode::Python);
                    match render(&template, fields) {
                        Ok(_) => Ok(ErrorType::Known { kind, context: clone_fields(fields) }),
                        Err(RenderError::MissingValue) => Err(
                            InputError::InvalidContext(ContextProblem::Absent),
                        ),
                        Err(RenderError::MalformedValue) => Err(
                            InputError::InvalidContext(ContextProblem::Shape),
                        ),
                    }
                },
            }
        }
    }

    /// The error type of a kind that the caller defined. What the caller
    /// handed over is kept as it is.
    pub fn new_custom_error(custom_error: CustomError) -> (r: ErrorType)
        ensures
            r == (ErrorType::CustomError { custom_error }),
    {
        ErrorType::CustomError { custom_error }
    }

    /// Whether the kind is one that the caller defined.
    pub fn is_custom(&self) -> (r: bool)
        ensures
            r == self@.is_custom(),
    {
        match self {
            ErrorType::Known { .. } => false,
            ErrorType::CustomError { .. } => true,
        }
    }

    /// The stable machine name of the kind.
    pub fn type_string(&self) -> (r: String)
        ensures
            r@ == self@.type_string(),
    {
        match self {
            ErrorType::Known { kind, .. } => String::from_str(kind.name()),
            ErrorType::CustomError { custom_error } => custom_error.error_type.clone(),
        }
    }

    /// The message in the given mode. Fails only where the context of a
    /// built-in kind lacks a value that the template names, or holds one
    /// that has no place in a sentence.
    pub fn render_message(&self, mode: ErrorMode) -> (r: Result<String, RenderError>)
        ensures
            match r {
                Ok(message) => self@.message(mode) == Ok::<Seq<char>, RenderError>(message@),
                Err(e) => self@.message(mode) == Err::<Seq<char>, RenderError>(e),
            },
    {
        match self {
            ErrorType::Known { kind, context } => {
                let template = kind.segments(mode);
                render(&template, context)
            },
            ErrorType::CustomError { custom_error } => Ok(custom_error.message.clone()),
        }
    }

    /// The context as a record, or nothing where there is none.
    pub fn context_record(&self) -> (r: Option<Data>)
        ensures
            match r {
                Some(record) => self@.context() == Some(record@),
                None => self@.context() is None,
            },
    {
        match self {
            ErrorType::Known { context, .. } => {
                if context.len() == 0 {
                    None
                } else {
                    let fields = clone_fields(context);
                    proof {
                        lemma_dict_model(fields);
                    }
                    Some(Data::Dict(fields))
                }
            },
            ErrorType::CustomError { custom_error } => match &custom_error.context {
                Some(context) => {
                    let fields = clone_fields(context);
                    proof {
                        lemma_dict_model(fields);
                    }
                    Some(Data::Dict(fields))
                },
                None => None,
            },
        }
    }
}

} // verus!
