//! The closed set of built-in failure kinds, their stable names and the
//! templates of their messages.
use vstd::prelude::*;
use crate::data::{field_of, fields_model, get_field, Data, DataModel};
use crate::failure::{InputError, RenderError};
use crate::text::{int_text, push_int, str_eq};
use vstd::string::*;

verus! {

/// How messages are phrased: for a caller who handed over native values,
/// or for one who handed over JSON.
#[derive(Clone, Copy, Debug, PartialEq, Eq, Structural)]
pub enum ErrorMode {
    Python,
    Json,
}

impl ErrorMode {
    /// The mode that a name stands for; with no name, `Python`.
    pub open spec fn parse(name: Option<Seq<char>>) -> Result<ErrorMode, InputError> {
        match name {
            None => Ok(ErrorMode::Python),
            Some(n) => if n == "python"@ {
                Ok(ErrorMode::Python)
            } else if n == "json"@ {
                Ok(ErrorMode::Json)
            } else {
                Err(InputError::UnknownMode)
            },
        }
    }

    /// The mode that `name` stands for: `python` or `json`; with no name,
    /// `Python`. Any other name is refused.
    pub fn try_from(name: Option<&str>) -> (r: Result<ErrorMode, InputError>)
        ensures
            r == Self::parse(
                match name {
                    Some(n) => Some(n@),
                    None => None,
                },
            ),
    {
        match name {
            None => Ok(ErrorMode::Python),
            Some(n) => if str_eq(n, "python") {
                Ok(ErrorMode::Python)
            } else if str_eq(n, "json") {
                Ok(ErrorMode::Json)
            } else {
                Err(InputError::UnknownMode)
            },
        }
    }
}

/// A built-in kind of failure.
#[derive(Clone, Copy, Debug, PartialEq, Eq, Structural)]
pub enum ErrorKind {
    Missing,
    ExtraForbidden,
    NoneRequired,
    BoolType,
    IntType,
    IntParsing,
    StringType,
    StringTooShort,
    StringTooLong,
    ListType,
    DictType,
    GreaterThan,
    LessThan,
    TooShort,
    TooLong,
}

/// One piece of a message template.
#[derive(Clone, Copy, Debug, PartialEq, Eq)]
pub enum Segment {
    /// Words that stand in the message as they are.
    Text(&'static str),
    /// The place of the context value of this name.
    Value(&'static str),
    /// The place of the plural ending that the count of this name calls for.
    Plural(&'static str),
}

/// What a [`Segment`] stands for.
pub enum SegmentModel {
    Text(Seq<char>),
    Value(Seq<char>),
    Plural(Seq<char>),
}

impl View for Segment {
    type V = SegmentModel;

    open spec fn view(&self) -> SegmentModel {
        match self {
            Segment::Text(t) => SegmentModel::Text(t@),
            Segment::Value(n) => SegmentModel::Value(n@),
            Segment::Plural(n) => SegmentModel::Plural(n@),
        }
    }
}

/// What a sequence of segments stands for, piece by piece.
pub open spec fn segments_model(segments: Seq<Segment>) -> Seq<SegmentModel> {
    Seq::new(segments.len(), |i: int| segments[i]@)
}

/// A template of fixed words.
pub open spec fn plain_template(words: Seq<char>) -> Seq<SegmentModel> {
    seq![SegmentModel::Text(words)]
}

/// A template of words around one context value.
pub open spec fn value_template(before: Seq<char>, name: Seq<char>, after: Seq<char>) -> Seq<
    SegmentModel,
> {
    seq![SegmentModel::Text(before), SegmentModel::Value(name), SegmentModel::Text(after)]
}

/// The template of a collection with too few or too many items.
pub open spec fn length_template(bound: Seq<char>, limit: Seq<char>) -> Seq<SegmentModel> {
    seq![
        SegmentModel::Value("field_type"@),
        SegmentModel::Text(bound),
        SegmentModel::Value(limit),
        SegmentModel::Text(" item"@),
        SegmentModel::Plural(limit),
        SegmentModel::Text(" after validation, not "@),
        SegmentModel::Value("actual_length"@),
    ]
}

impl ErrorKind {
    /// The stable name of the kind, as it stands in records and in
    /// documentation addresses.
    pub open spec fn key(self) -> Seq<char> {
        match self {
            ErrorKind::Missing => "missing"@,
            ErrorKind::ExtraForbidden => "extra_forbidden"@,
            ErrorKind::NoneRequired => "none_required"@,
            ErrorKind::BoolType => "bool_type"@,
            ErrorKind::IntType => "int_type"@,
            ErrorKind::IntParsing => "int_parsing"@,
            ErrorKind::StringType => "string_type"@,
            ErrorKind::StringTooShort => "string_too_short"@,
            ErrorKind::StringTooLong => "string_too_long"@,
            ErrorKind::ListType => "list_type"@,
            ErrorKind::DictType => "dict_type"@,
            ErrorKind::GreaterThan => "greater_than"@,
            ErrorKind::LessThan => "less_than"@,
            ErrorKind::TooShort => "too_short"@,
            ErrorKind::TooLong => "too_long"@,
        }
    }

    /// The kind of the given name, if there is one.
    pub open spec fn by_key(name: Seq<char>) -> Option<ErrorKind> {
        if name == "missing"@ {
            Some(ErrorKind::Missing)
        } else if name == "extra_forbidden"@ {
            Some(ErrorKind::ExtraForbidden)
        } else if name == "none_required"@ {
            Some(ErrorKind::NoneRequired)
        } else if name == "bool_type"@ {
            Some(ErrorKind::BoolType)
        } else if name == "int_type"@ {
            Some(ErrorKind::IntType)
        } else if name == "int_parsing"@ {
            Some(ErrorKind::IntParsing)
        } else if name == "string_type"@ {
            Some(ErrorKind::StringType)
        } else if name == "string_too_short"@ {
            Some(ErrorKind::StringTooShort)
        } else if name == "string_too_long"@ {
            Some(ErrorKind::StringTooLong)
        } else if name == "list_type"@ {
            Some(ErrorKind::ListType)
        } else if name == "dict_type"@ {
            Some(ErrorKind::DictType)
        } else if name == "greater_than"@ {
            Some(ErrorKind::GreaterThan)
        } else if name == "less_than"@ {
            Some(ErrorKind::LessThan)
        } else if name == "too_short"@ {
            Some(ErrorKind::TooShort)
        } else if name == "too_long"@ {
            Some(ErrorKind::TooLong)
        } else {
            None
        }
    }

    /// The template of the message of the kind in the given mode.
    pub open spec fn template(self, mode: ErrorMode) -> Seq<SegmentModel> {
        match self {
            ErrorKind::Missing => plain_template("Field required"@),
            ErrorKind::ExtraForbidden => plain_template("Extra inputs are not permitted"@),
            ErrorKind::NoneRequired => match mode {
                ErrorMode::Python => plain_template("Input should be None"@),
                ErrorMode::Json => plain_template("Input should be null"@),
            },
            ErrorKind::BoolType => plain_template("Input should be a valid boolean"@),
            ErrorKind::IntType => plain_template("Input should be a valid integer"@),
            ErrorKind::IntParsing => plain_template(
                "Input should be a valid integer, unable to parse string as an integer"@,
            ),
            ErrorKind::StringType => plain_template("Input should be a valid string"@),
            ErrorKind::StringTooShort => value_template(
                "String should have at least "@,
                "min_length"@,
                " characters"@,
            ),
            ErrorKind::StringTooLong => value_template(
                "String should have at most "@,
                "max_length"@,
                " characters"@,
            ),
            ErrorKind::ListType => match mode {
                ErrorMode::Python => plain_template("Input should be a valid list"@),
                ErrorMode::Json => plain_template("Input should be a valid array"@),
            },
            ErrorKind::DictType => match mode {
                ErrorMode::Python => plain_template("Input should be a valid dictionary"@),
                ErrorMode::Json => plain_template("Input should be an object"@),
            },
            ErrorKind::GreaterThan => value_template("Input should be greater than "@, "gt"@, ""@),
            ErrorKind::LessThan => value_template("Input should be less than "@, "lt"@, ""@),
            ErrorKind::TooShort => length_template(" should have at least "@, "min_length"@),
            ErrorKind::TooLong => length_template(" should have at most "@, "max_length"@),
        }
    }

    /// Whether the message of the kind is built from context values.
    pub open spec fn takes_context(self) -> bool {
        match self {
            ErrorKind::StringTooShort
            | ErrorKind::StringTooLong
            | ErrorKind::GreaterThan
            | ErrorKind::LessThan
            | ErrorKind::TooShort
            | ErrorKind::TooLong => true,
            _ => false,
        }
    }

    /// The stable name of the kind.
    pub fn name(&self) -> (r: &'static str)
        ensures
            r@ == self.key(),
    {
        match self {
            ErrorKind::Missing => "missing",
            ErrorKind::ExtraForbidden => "extra_forbidden",
            ErrorKind::NoneRequired => "none_required",
            ErrorKind::BoolType => "bool_type",
            ErrorKind::IntType => "int_type",
            ErrorKind::IntParsing => "int_parsing",
            ErrorKind::StringType => "string_type",
            ErrorKind::StringTooShort => "string_too_short",
            ErrorKind::StringTooLong => "string_too_long",
            ErrorKind::ListType => "list_type",
            ErrorKind::DictType => "dict_type",
            ErrorKind::GreaterThan => "greater_than",
            ErrorKind::LessThan => "less_than",
            ErrorKind::TooShort => "too_short",
            ErrorKind::TooLong => "too_long",
        }
    }

    /// The kind of the given name, if there is one.
    pub fn lookup(name: &str) -> (r: Option<ErrorKind>)
        ensures
            r == Self::by_key(name@),
    {
        if str_eq(name, "missing") {
            Some(ErrorKind::Missing)
        } else if str_eq(name, "extra_forbidden") {
            Some(ErrorKind::ExtraForbidden)
        } else if str_eq(name, "none_required") {
            Some(ErrorKind::NoneRequired)
        } else if str_eq(name, "bool_type") {
            Some(ErrorKind::BoolType)
        } else if str_eq(name, "int_type") {
            Some(ErrorKind::IntType)
        } else if str_eq(name, "int_parsing") {
            Some(ErrorKind::IntParsing)
        } else if str_eq(name, "string_type") {
            Some(ErrorKind::StringType)
        } else if str_eq(name, "string_too_short") {
            Some(ErrorKind::StringTooShort)
        } else if str_eq(name, "string_too_long") {
            Some(ErrorKind::StringTooLong)
        } else if str_eq(name, "list_type") {
            Some(ErrorKind::ListType)
        } else if str_eq(name, "dict_type") {
            Some(ErrorKind::DictType)
        } else if str_eq(name, "greater_than") {
            Some(ErrorKind::GreaterThan)
        } else if str_eq(name, "less_than") {
            Some(ErrorKind::LessThan)
        } else if str_eq(name, "too_short") {
            Some(ErrorKind::TooShort)
        } else if str_eq(name, "too_long") {
            Some(ErrorKind::TooLong)
        } else {
            None
        }
    }

    /// Whether the message of the kind is built from context values.
    pub fn needs_context(&self) -> (r: bool)
        ensures
            r == self.takes_context(),
    {
        match self {
            ErrorKind::StringTooShort
            | ErrorKind::StringTooLong
            | ErrorKind::GreaterThan
            | ErrorKind::LessThan
            | ErrorKind::TooShort
            | ErrorKind::TooLong => true,
            _ => false,
        }
    }

    /// The template of the message of the kind in the given mode.
    pub fn segments(&self, mode: ErrorMode) -> (r: Vec<Segment>)
        ensures
            segments_model(r@) == self.template(mode),
    {
        match self {
            ErrorKind::Missing => plain("Field required"),
            ErrorKind::ExtraForbidden => plain("Extra inputs are not permitted"),
            ErrorKind::NoneRequired => match mode {
                ErrorMode::Python => plain("Input should be None"),
                ErrorMode::Json => plain("Input should be null"),
            },
            ErrorKind::BoolType => plain("Input should be a valid boolean"),
            ErrorKind::IntType => plain("Input should be a valid integer"),
            ErrorKind::IntParsing => plain(
                "Input should be a valid integer, unable to parse string as an integer",
            ),
            ErrorKind::StringType => plain("Input should be a valid string"),
            ErrorKind::StringTooShort => around(
                "String should have at least ",
                "min_length",
                " characters",
            ),
            ErrorKind::StringTooLong => around(
                "String should have at most ",
                "max_length",
                " characters",
            ),
            ErrorKind::ListType => match mode {
                ErrorMode::Python => plain("Input should be a valid list"),
                ErrorMode::Json => plain("Input should be a valid array"),
            },
            ErrorKind::DictType => match mode {
                ErrorMode::Python => plain("Input should be a valid dictionary"),
                ErrorMode::Json => plain("Input should be an object"),
            },
            ErrorKind::GreaterThan => around("Input should be greater than ", "gt", ""),
            ErrorKind::LessThan => around("Input should be less than ", "lt", ""),
            ErrorKind::TooShort => bounded(" should have at least ", "min_length"),
            ErrorKind::TooLong => bounded(" should have at most ", "max_length"),
        }
    }
}

fn plain(words: &'static str) -> (r: Vec<Segment>)
    ensures
        segments_model(r@) == plain_template(words@),
{
    let mut r: Vec<Segment> = Vec::new();
    r.push(Segment::Text(words));
    assert(segments_model(r@) =~= plain_template(words@));
    r
}

fn around(before: &'static str, name: &'static str, after: &'static str) -> (r: Vec<Segment>)
    ensures
        segments_model(r@) == value_template(before@, name@, after@),
{
    let mut r: Vec<Segment> = Vec::new();
    r.push(Segment::Text(before));
    r.push(Segment::Value(name));
    r.push(Segment::Text(after));
    assert(segments_model(r@) =~= value_template(before@, name@, after@));
    r
}

fn bounded(bound: &'static str, limit: &'static str) -> (r: Vec<Segment>)
    ensures
        segments_model(r@) == length_template(bound@, limit@),
{
    let mut r: Vec<Segment> = Vec::new();
    r.push(Segment::Value("field_type"));
    r.push(Segment::Text(bound));
    r.push(Segment::Value(limit));
    r.push(Segment::Text(" item"));
    r.push(Segment::Plural(limit));
    r.push(Segment::Text(" after validation, not "));
    r.push(Segment::Value("actual_length"));
    assert(segments_model(r@) =~= length_template(bound@, limit@));
    r
}

/// The words that one segment contributes to a message, given the context.
/// A named value must be present and be a string or an integer; a plural
/// ending is empty for the count one and `s` for any other integer.
pub open spec fn segment_text(segment: SegmentModel, context: Seq<(Seq<char>, DataModel)>) -> Result<
    Seq<char>,
    RenderError,
> {
    match segment {
        SegmentModel::Text(t) => Ok(t),
        SegmentModel::Value(name) => match field_of(context, name) {
            None => Err(RenderError::MissingValue),
            Some(DataModel::Str(s)) => Ok(s),
            Some(DataModel::Int(i)) => Ok(int_text(i)),
            Some(_) => Err(RenderError::MalformedValue),
        },
        SegmentModel::Plural(name) => match field_of(context, name) {
            None => Err(RenderError::MissingValue),
            Some(DataModel::Int(i)) => Ok(
                if i == 1 {
                    Seq::empty()
                } else {
                    "s"@
                },
            ),
            Some(_) => Err(RenderError::MalformedValue),
        },
    }
}

/// The message that the first `n` segments of a template give with the
/// context: their words in order, or the failure of the first segment that
/// cannot be filled.
pub open spec fn render_template(
    template: Seq<SegmentModel>,
    context: Seq<(Seq<char>, DataModel)>,
    n: nat,
) -> Result<Seq<char>, RenderError>
    decreases n,
{
    if n == 0 || n > template.len() {
        Ok(Seq::empty())
    } else {
        match render_template(template, context, (n - 1) as nat) {
            Err(e) => Err(e),
            Ok(head) => match segment_text(template[n - 1], context) {
                Err(e) => Err(e),
                Ok(words) => Ok(head + words),
            },
        }
    }
}

/// Appends the words of one segment to `out`, or reports why it cannot be
/// filled and leaves `out` as it was.
pub fn push_segment(out: &mut String, segment: &Segment, context: &Vec<(String, Data)>) -> (r:
    Result<(), RenderError>)
    ensures
        match r {
            Ok(_) => segment_text(segment@, fields_model(context@)) matches Ok(words)
                && final(out)@ == old(out)@ + words,
            Err(e) => segment_text(segment@, fields_model(context@)) == Err::<
                Seq<char>,
                RenderError,
            >(e) && final(out)@ == old(out)@,
        },
{
    match segment {
        Segment::Text(t) => {
            out.append(t);
            Ok(())
        },
        Segment::Value(name) => match get_field(context, name) {
            None => Err(RenderError::MissingValue),
            Some(Data::Str(s)) => {
                out.append(s.as_str());
                Ok(())
            },
            Some(Data::Int(i)) => {
                push_int(out, *i);
                Ok(())
            },
            Some(_) => Err(RenderError::MalformedValue),
        },
        Segment::Plural(name) => match get_field(context, name) {
            None => Err(RenderError::MissingValue),
            Some(Data::Int(i)) => {
                if *i != 1 {
                    out.append("s");
                }
                assert(out@ =~= old(out)@ + segment_text(segment@, fields_model(context@))->Ok_0);
                Ok(())
            },
            Some(_) => Err(RenderError::MalformedValue),
        },
    }
}

/// The message that a template gives with a context.
pub fn render(template: &Vec<Segment>, context: &Vec<(String, Data)>) -> (r: Result<
    String,
    RenderError,
>)
    ensures
        match r {
            Ok(message) => render_template(
                segments_model(template@),
                fields_model(context@),
                template.len() as nat,
            ) == Ok::<Seq<char>, RenderError>(message@),
            Err(e) => render_template(
                segments_model(template@),
                fields_model(context@),
                template.len() as nat,
            ) == Err::<Seq<char>, RenderError>(e),
        },
{
    let mut out = String::new();
    let mut i: usize = 0;
    while i < template.len()
        invariant
            i <= template.len(),
            render_template(segments_model(template@), fields_model(context@), i as nat) == Ok::<
                Seq<char>,
                RenderError,
            >(out@),
        decreases template.len() - i,
    {
        match push_segment(&mut out, &template[i], context) {
            Ok(_) => {},
            Err(e) => {
                proof {
                    lemma_render_fails(
                        segments_model(template@),
                        fields_model(context@),
                        (i + 1) as nat,
                        template.len() as nat,
                    );
                }
                return Err(e);
            },
        }
        i += 1;
    }
    Ok(out)
}

/// Once a prefix of a template fails, every longer prefix fails in the
/// same way.
pub proof fn lemma_render_fails(
    template: Seq<SegmentModel>,
    context: Seq<(Seq<char>, DataModel)>,
    n: nat,
    m: nat,
)
    requires
        n <= m <= template.len(),
        render_template(template, context, n) is Err,
    ensures
        render_template(template, context, m) == render_template(template, context, n),
    decreases m,
{
    if n < m {
        lemma_render_fails(template, context, n, (m - 1) as nat);
    }
}

} // verus!
