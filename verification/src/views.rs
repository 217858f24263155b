//! The three views of an aggregate: records, JSON text and diagnostic
//! text. Each flattens the tree first, so that all three show the same
//! failures in the same order.
use vstd::prelude::*;
use vstd::string::*;
use vstd::utf8::{decode_utf8, valid_utf8};
use crate::data::{items_model, lemma_list_model, Data, DataModel};
use crate::failure::RenderError;
use crate::json::{
    compact_bytes,
    json_value_of,
    pretty_bytes,
    string_from_utf8,
    to_json_value,
    utf8_failure,
    write_compact,
    write_pretty,
    written_model,
};
use crate::kind::ErrorMode;
use crate::line_error::{LineErrorModel, PyLineError};
use crate::report::{line_models, ValidationError, ValidationErrorModel};
use crate::text::{join, join_text, nat_text, push_nat, views_of};
use crate::url::{prefix_model, UrlSettings};

verus! {

/// The diagnostic texts of the failures, one for each, in order.
pub open spec fn pretty_lines(
    errors: Seq<LineErrorModel>,
    mode: ErrorMode,
    url_prefix: Option<Seq<char>>,
) -> Seq<Seq<char>> {
    Seq::new(errors.len(), |i: int| errors[i].pretty(mode, url_prefix))
}

/// The diagnostic texts of the failures, each on a line of its own.
pub open spec fn pretty_report(
    errors: Seq<LineErrorModel>,
    mode: ErrorMode,
    url_prefix: Option<Seq<char>>,
) -> Seq<char> {
    join_text(pretty_lines(errors, mode, url_prefix), "\n"@)
}

/// The first line of a report: how many failures there are, and for what.
pub open spec fn summary(count: nat, title: Seq<char>) -> Seq<char> {
    nat_text(count) + " validation error"@ + (if count == 1 {
        Seq::empty()
    } else {
        "s"@
    }) + " for "@ + title
}

/// The records of the first `n` failures in order, or the failure of the
/// first whose message cannot be rendered.
pub open spec fn records(
    errors: Seq<LineErrorModel>,
    url_prefix: Option<Seq<char>>,
    include_context: bool,
    mode: ErrorMode,
    n: nat,
) -> Result<Seq<DataModel>, RenderError>
    decreases n,
{
    if n == 0 || n > errors.len() {
        Ok(Seq::empty())
    } else {
        match records(errors, url_prefix, include_context, mode, (n - 1) as nat) {
            Err(e) => Err(e),
            Ok(head) => match errors[n - 1].record(url_prefix, include_context, mode) {
                Err(e) => Err(e),
                Ok(record) => Ok(head.push(record)),
            },
        }
    }
}

/// Once a run of failures has one whose message cannot be rendered, every
/// longer run fails in the same way.
pub proof fn lemma_records_fail(
    errors: Seq<LineErrorModel>,
    url_prefix: Option<Seq<char>>,
    include_context: bool,
    mode: ErrorMode,
    n: nat,
    m: nat,
)
    requires
        n <= m <= errors.len(),
        records(errors, url_prefix, include_context, mode, n) is Err,
    ensures
        records(errors, url_prefix, include_context, mode, m) == records(
            errors,
            url_prefix,
            include_context,
            mode,
            n,
        ),
    decreases m,
{
    if n < m {
        lemma_records_fail(errors, url_prefix, include_context, mode, n, (m - 1) as nat);
    }
}

/// The words of the failure to write a report as JSON, given the words of
/// what went wrong.
pub open spec fn json_failure(words: Seq<char>) -> Seq<char> {
    "Error serializing ValidationError to JSON: "@ + words
}

/// The words for a custom error that stands where JSON is to be written:
/// it is a value of the host and has no form in JSON.
pub open spec fn custom_in_json() -> Seq<char> {
    "a custom error has no form in JSON"@
}

/// As many spaces as one level of nesting is indented by.
pub open spec fn indent_bytes(indent: nat) -> Seq<u8> {
    Seq::new(indent, |i: int| 32u8)
}

/// What the serializer writes for a document: compact without an indent,
/// else pretty with that many spaces for each level.
pub open spec fn written(doc: DataModel, indent: Option<nat>) -> Result<Seq<u8>, Seq<char>> {
    match indent {
        Some(n) => pretty_bytes(json_value_of(doc), indent_bytes(n)),
        None => compact_bytes(json_value_of(doc)),
    }
}

/// The text, or the words of the failure, for what the serializer handed
/// back: its error is reported; its bytes are read as UTF-8, and bytes
/// that are none are reported too.
pub open spec fn finished(written: Result<Seq<u8>, Seq<char>>) -> Result<Seq<char>, Seq<char>> {
    match written {
        Err(words) => Err(json_failure(words)),
        Ok(bytes) => if valid_utf8(bytes) {
            Ok(decode_utf8(bytes))
        } else {
            Err(json_failure(utf8_failure(bytes)))
        },
    }
}

impl ValidationErrorModel {
    /// The records of all failures of the tree, flattened.
    pub open spec fn errors(self, url_prefix: Option<Seq<char>>, include_context: bool) -> Result<
        Seq<DataModel>,
        RenderError,
    > {
        records(
            self.flatten(),
            url_prefix,
            include_context,
            self.error_mode,
            self.flatten().len(),
        )
    }

    /// The report as text: a first line, then the diagnostic text of each
    /// failure of the flattened tree. The first line is the override if
    /// there is one, else the count of failures and the title.
    pub open spec fn display(
        self,
        url_prefix: Option<Seq<char>>,
        prefix_override: Option<Seq<char>>,
    ) -> Seq<char> {
        (match prefix_override {
            Some(first) => first,
            None => summary(self.flatten().len(), self.title),
        }) + "\n"@ + pretty_report(self.flatten(), self.error_mode, url_prefix)
    }

    /// The report as JSON text: the array of the records of the flattened
    /// tree, as the serializer writes it; or the words of the failure. A
    /// record that holds a custom error as a value cannot be written.
    pub open spec fn json(
        self,
        url_prefix: Option<Seq<char>>,
        indent: Option<nat>,
        include_context: bool,
    ) -> Result<Seq<char>, Seq<char>> {
        match self.errors(url_prefix, include_context) {
            Err(e) => Err(json_failure(e.text())),
            Ok(rs) => if DataModel::List(rs).is_plain() {
                finished(written(DataModel::List(rs), indent))
            } else {
                Err(json_failure(custom_in_json()))
            },
        }
    }
}

/// The diagnostic texts of `line_errors`, each on a line of its own.
pub fn pretty_py_line_errors(
    error_mode: &ErrorMode,
    line_errors: &Vec<PyLineError>,
    url_prefix: Option<&str>,
) -> (r: String)
    ensures
        r@ == pretty_report(line_models(line_errors@), *error_mode, prefix_model(url_prefix)),
{
    let ghost wanted = pretty_lines(line_models(line_errors@), *error_mode, prefix_model(url_prefix));
    let mut lines: Vec<String> = Vec::new();
    let mut i: usize = 0;
    while i < line_errors.len()
        invariant
            i <= line_errors.len(),
            lines.len() == i,
            wanted == pretty_lines(line_models(line_errors@), *error_mode, prefix_model(url_prefix)),
            forall|j: int| 0 <= j < i ==> lines[j]@ == wanted[j],
        decreases line_errors.len() - i,
    {
        let line = line_errors[i].pretty(error_mode, url_prefix);
        assert(line@ == wanted[i as int]);
        lines.push(line);
        i += 1;
    }
    assert(views_of(lines@) =~= wanted);
    join(&lines, "\n")
}

/// The failure to write a report as JSON.
#[derive(Debug, PartialEq, Eq)]
pub struct SerializationError {
    pub message: String,
}

/// The failure to write a report as JSON, given the words of what went
/// wrong.
pub fn json_error(words: &str) -> (r: SerializationError)
    ensures
        r.message@ == json_failure(words@),
{
    let mut message = String::from_str("Error serializing ValidationError to JSON: ");
    message.append(words);
    SerializationError { message }
}

/// What a result with a failure to write JSON stands for.
pub open spec fn json_result_model(r: Result<String, SerializationError>) -> Result<
    Seq<char>,
    Seq<char>,
> {
    match r {
        Ok(text) => Ok(text@),
        Err(e) => Err(e.message@),
    }
}

/// The text for what the serializer handed back: its error is reported;
/// its bytes are read as UTF-8, and bytes that are none are reported too.
pub fn finish_json(written: Result<Vec<u8>, String>) -> (r: Result<String, SerializationError>)
    ensures
        json_result_model(r) == finished(written_model(written)),
{
    match written {
        Err(words) => Err(json_error(words.as_str())),
        Ok(bytes) => match string_from_utf8(bytes) {
            Ok(text) => Ok(text),
            Err(words) => Err(json_error(words.as_str())),
        },
    }
}

impl ValidationError {
    /// The records of all failures of the tree, flattened, in order.
    /// Addresses are shown if `include_url` says so, contexts if
    /// `include_context` does. Fails where a message cannot be rendered.
    pub fn errors(&self, settings: &UrlSettings, include_url: bool, include_context: bool) -> (r:
        Result<Vec<Data>, RenderError>)
        ensures
            match r {
                Ok(list) => self@.errors(settings.shown_prefix(include_url), include_context)
                    == Ok::<Seq<DataModel>, RenderError>(items_model(list@)),
                Err(e) => self@.errors(settings.shown_prefix(include_url), include_context)
                    == Err::<Seq<DataModel>, RenderError>(e),
            },
    {
        let line_errors = self.flatten_errors();
        let url_prefix = settings.get_url_prefix(include_url);
        let ghost flat = self@.flatten();
        let ghost prefix = settings.shown_prefix(include_url);
        let ghost mode = self@.error_mode;
        let mut list: Vec<Data> = Vec::new();
        let mut i: usize = 0;
        assert(items_model(list@) =~= Seq::empty());
        while i < line_errors.len()
            invariant
                i <= line_errors.len(),
                flat == line_models(line_errors@),
                flat == self@.flatten(),
                prefix == prefix_model(url_prefix),
                prefix == settings.shown_prefix(include_url),
                mode == self.error_mode,
                records(flat, prefix, include_context, mode, i as nat) == Ok::<
                    Seq<DataModel>,
                    RenderError,
                >(items_model(list@)),
            decreases line_errors.len() - i,
        {
            let ghost head = items_model(list@);
            assert(flat[i as int] == line_errors[i as int]@);
            match line_errors[i].as_dict(url_prefix, include_context, &self.error_mode) {
                Ok(record) => {
                    list.push(record);
                    assert(items_model(list@) =~= head.push(record@));
                },
                Err(e) => {
                    proof {
                        lemma_records_fail(
                            flat,
                            prefix,
                            include_context,
                            mode,
                            (i + 1) as nat,
                            flat.len(),
                        );
                    }
                    return Err(e);
                },
            }
            i += 1;
        }
        Ok(list)
    }

    /// The report as JSON text: the array of the records of the flattened
    /// tree. Without an indent the text is compact; with one, every level
    /// of nesting is indented by that many spaces. Fails where a message
    /// cannot be rendered, where an input or a context holds a custom
    /// error as a value, and where the serializer fails.
    pub fn json(
        &self,
        settings: &UrlSettings,
        indent: Option<usize>,
        include_url: bool,
        include_context: bool,
    ) -> (r: Result<String, SerializationError>)
        ensures
            json_result_model(r) == self@.json(
                settings.shown_prefix(include_url),
                match indent {
                    Some(n) => Some(n as nat),
                    None => None,
                },
                include_context,
            ),
    {
        let list = match self.errors(settings, include_url, include_context) {
            Ok(list) => list,
            Err(e) => {
                return Err(json_error(e.message()));
            },
        };
        proof {
            lemma_list_model(list);
        }
        let doc = Data::List(list);
        if !doc.is_plain() {
            return Err(json_error("a custom error has no form in JSON"));
        }
        let value = to_json_value(&doc);
        let written = match indent {
            Some(n) => {
                let mut spaces: Vec<u8> = Vec::new();
                let mut i: usize = 0;
                while i < n
                    invariant
                        i <= n,
                        spaces.len() == i,
                        forall|j: int| 0 <= j < i ==> spaces[j] == 32u8,
                    decreases n - i,
                {
                    spaces.push(32u8);
                    i += 1;
                }
                assert(spaces@ =~= indent_bytes(n as nat));
                write_pretty(&value, &spaces)
            },
            None => write_compact(&value),
        };
        finish_json(written)
    }

    /// The report as text: a first line, then the diagnostic text of each
    /// failure of the flattened tree, each on a line of its own. The first
    /// line is `prefix_override` if there is one; else it says how many
    /// failures there are, and for what.
    pub fn display(&self, settings: &UrlSettings, prefix_override: Option<&str>) -> (r: String)
        ensures
            r@ == self@.display(
                settings.shown_prefix(settings.include_url),
                prefix_model(prefix_override),
            ),
    {
        let url_prefix = settings.get_url_prefix(settings.include_url);
        let line_errors = self.flatten_errors();
        let line_errors_string = pretty_py_line_errors(&self.error_mode, &line_errors, url_prefix);
        let mut out = String::new();
        match prefix_override {
            Some(first) => {
                out.append(first);
            },
            None => {
                let count = line_errors.len();
                push_nat(&mut out, count as u64);
                out.append(" validation error");
                if count != 1 {
                    out.append("s");
                }
                out.append(" for ");
                out.append(self.message.as_str());
                assert(out@ =~= summary(self@.flatten().len(), self@.title));
            },
        }
        out.append("\n");
        out.append(line_errors_string.as_str());
        out
    }

    /// The report as it is shown: the text with the count of failures and
    /// the title as its first line.
    pub fn repr(&self, settings: &UrlSettings) -> (r: String)
        ensures
            r@ == self@.display(settings.shown_prefix(settings.include_url), None),
    {
        self.display(settings, None)
    }

    /// The report as it is described: the same text as it is shown.
    pub fn describe(&self, settings: &UrlSettings) -> (r: String)
        ensures
            r@ == self@.display(settings.shown_prefix(settings.include_url), None),
    {
        self.repr(settings)
    }
}

} // verus!
