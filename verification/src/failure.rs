//! The ways in which building a value or rendering a message can fail.
use vstd::prelude::*;

verus! {

/// A field that a leaf-failure record must hold.
#[derive(Clone, Copy, Debug, PartialEq, Eq, Structural)]
pub enum RequiredField {
    /// The kind of the failure, under `type`.
    Type,
    /// The path of the failure, under `loc`.
    Loc,
}

/// What was found where a value of another shape was needed.
#[derive(Clone, Copy, Debug, PartialEq, Eq, Structural)]
pub enum Mismatch {
    /// An item that is neither an aggregate nor a record.
    Record,
    /// A `type` that is neither the name of a kind nor a custom error.
    Type,
    /// A context that is not a record.
    Context,
    /// A path that is not a list.
    Location,
    /// A segment of a path that is neither an integer nor a string.
    LocationItem,
}

/// What is wrong with the context handed over for a built-in kind.
#[derive(Clone, Copy, Debug, PartialEq, Eq, Structural)]
pub enum ContextProblem {
    /// The kind needs a context and none was given.
    Required,
    /// A value that the message of the kind needs is absent.
    Absent,
    /// A value that the message of the kind needs has the wrong shape.
    Shape,
}

/// Why a location, an error type, a leaf failure or an aggregate could
/// not be built from what the caller handed over.
#[derive(Clone, Copy, Debug, PartialEq, Eq, Structural)]
pub enum InputError {
    /// A required field of a record is absent.
    MissingField(RequiredField),
    /// A value has the wrong shape.
    TypeMismatch(Mismatch),
    /// The name is not that of a built-in kind.
    UnknownKind,
    /// The context does not fit the kind.
    InvalidContext(ContextProblem),
    /// The name is not that of a rendering mode.
    UnknownMode,
}

/// Why the message of an error type could not be rendered.
#[derive(Clone, Copy, Debug, PartialEq, Eq, Structural)]
pub enum RenderError {
    /// The template names a value that the context does not hold.
    MissingValue,
    /// The template names a value that has no place in a sentence.
    MalformedValue,
}

impl RequiredField {
    /// The key under which the field stands in a record.
    pub open spec fn key(self) -> Seq<char> {
        match self {
            RequiredField::Type => "type"@,
            RequiredField::Loc => "loc"@,
        }
    }

    /// The key under which the field stands in a record.
    pub fn name(&self) -> (r: &'static str)
        ensures
            r@ == self.key(),
    {
        match self {
            RequiredField::Type => "type",
            RequiredField::Loc => "loc",
        }
    }
}

impl RenderError {
    /// The words that stand for the failure in a report.
    pub open spec fn text(self) -> Seq<char> {
        match self {
            RenderError::MissingValue => "a value of the context is missing"@,
            RenderError::MalformedValue => "a value of the context is malformed"@,
        }
    }

    /// The words that stand for the failure in a report.
    pub fn message(&self) -> (r: &'static str)
        ensures
            r@ == self.text(),
    {
        match self {
            RenderError::MissingValue => "a value of the context is missing",
            RenderError::MalformedValue => "a value of the context is malformed",
        }
    }
}

impl InputError {
    /// The words that say what was wrong. For a field that is absent they
    /// are the key of the field.
    pub open spec fn text(self) -> Seq<char> {
        match self {
            InputError::MissingField(field) => field.key(),
            InputError::TypeMismatch(Mismatch::Record) => "an item should be an aggregate or a record"@,
            InputError::TypeMismatch(Mismatch::Type) => "`type` should be a `str` or `PydanticCustomError`"@,
            InputError::TypeMismatch(Mismatch::Context) => "`ctx` should be a record"@,
            InputError::TypeMismatch(Mismatch::Location) => "a location should be a list"@,
            InputError::TypeMismatch(Mismatch::LocationItem) => "an item of a location should be a string or an integer"@,
            InputError::UnknownKind => "the name is not that of a kind of error"@,
            InputError::InvalidContext(ContextProblem::Required) => "errors of this kind require a context"@,
            InputError::InvalidContext(ContextProblem::Absent) => "a value is required in the context"@,
            InputError::InvalidContext(ContextProblem::Shape) => "a value of the context should be a string or an integer"@,
            InputError::UnknownMode => "the mode should be `python` or `json`"@,
        }
    }

    /// The words that say what was wrong.
    pub fn message(&self) -> (r: &'static str)
        ensures
            r@ == self.text(),
    {
        match self {
            InputError::MissingField(field) => field.name(),
            InputError::TypeMismatch(Mismatch::Record) => "an item should be an aggregate or a record",
            InputError::TypeMismatch(Mismatch::Type) => "`type` should be a `str` or `PydanticCustomError`",
            InputError::TypeMismatch(Mismatch::Context) => "`ctx` should be a record",
            InputError::TypeMismatch(Mismatch::Location) => "a location should be a list",
            InputError::TypeMismatch(Mismatch::LocationItem) => "an item of a location should be a string or an integer",
            InputError::UnknownKind => "the name is not that of a kind of error",
            InputError::InvalidContext(ContextProblem::Required) => "errors of this kind require a context",
            InputError::InvalidContext(ContextProblem::Absent) => "a value is required in the context",
            InputError::InvalidContext(ContextProblem::Shape) => "a value of the context should be a string or an integer",
            InputError::UnknownMode => "the mode should be `python` or `json`",
        }
    }
}

} // verus!
