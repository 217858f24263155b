//! What holds of the library as a whole, stated once and proved.
use vstd::prelude::*;
use crate::data::{field_of, DataModel};
use crate::error_type::ErrorTypeModel;
use crate::failure::InputError;
use crate::kind::{ErrorKind, ErrorMode};
use crate::line_error::{truncated, LineErrorModel, PyLineError};
use crate::location::{all_segments, location_record, parse_location, LocItemModel};
use crate::report::{
    line_models,
    partition,
    prefixed,
    ErrorItemModel,
    ValidationError,
    ValidationErrorModel,
};
use crate::views::{pretty_lines, records};

verus! {

/// Flattening is repeatable: whatever two calls of `flatten_errors` on one
/// aggregate hand back stands for the same failures in the same order.
pub proof fn law_flatten_is_repeatable(
    node: ValidationError,
    first: Vec<PyLineError>,
    second: Vec<PyLineError>,
)
    requires
        call_ensures(ValidationError::flatten_errors, (&node,), first),
        call_ensures(ValidationError::flatten_errors, (&node,), second),
    ensures
        line_models(first@) == line_models(second@),
{
}

/// Putting a prefix before a failure puts it before its location and
/// changes nothing else; the empty prefix changes nothing at all; and two
/// prefixes put on in turn are one prefix, the outer one first.
pub proof fn law_prefix_composition(
    failure: LineErrorModel,
    inner: Seq<LocItemModel>,
    outer: Seq<LocItemModel>,
)
    ensures
        failure.with_prefix(outer).location == outer + failure.location,
        failure.with_prefix(outer).error_type == failure.error_type,
        failure.with_prefix(outer).input_value == failure.input_value,
        failure.with_prefix(Seq::empty()) == failure,
        failure.with_prefix(inner).with_prefix(outer) == failure.with_prefix(outer + inner),
{
    assert(Seq::<LocItemModel>::empty() + failure.location =~= failure.location);
    assert(outer + (inner + failure.location) =~= (outer + inner) + failure.location);
}

impl ValidationErrorModel {
    /// Where the failures of the nested aggregate `k` begin in the
    /// flattened tree.
    pub open spec fn child_offset(self, k: nat) -> nat {
        self.line_errors.len() + Self::flatten_children(
            self.validation_errors,
            self.loc_prefix,
            k,
        ).len()
    }
}

/// The node's own leaf failures come first in the flattened tree, as they
/// are: no prefix is put before them.
pub proof fn law_own_failures_first(node: ValidationErrorModel, i: int)
    requires
        0 <= i < node.line_errors.len(),
    ensures
        i < node.flatten().len(),
        node.flatten()[i] == node.line_errors[i],
{
}

/// The runs of nested aggregates grow: a longer run of the same children
/// flattens to the shorter run's failures followed by more.
pub proof fn lemma_children_prefix(
    children: Seq<ValidationErrorModel>,
    prefix: Seq<LocItemModel>,
    n: nat,
    m: nat,
)
    requires
        n <= m <= children.len(),
    ensures
        ValidationErrorModel::flatten_children(children, prefix, n).len()
            <= ValidationErrorModel::flatten_children(children, prefix, m).len(),
        ValidationErrorModel::flatten_children(children, prefix, m).take(
            ValidationErrorModel::flatten_children(children, prefix, n).len() as int,
        ) == ValidationErrorModel::flatten_children(children, prefix, n),
    decreases m,
{
    let short = ValidationErrorModel::flatten_children(children, prefix, n);
    let long = ValidationErrorModel::flatten_children(children, prefix, m);
    if n < m {
        lemma_children_prefix(children, prefix, n, (m - 1) as nat);
        let mid = ValidationErrorModel::flatten_children(children, prefix, (m - 1) as nat);
        assert(long.take(short.len() as int) =~= mid.take(short.len() as int));
    } else {
        assert(long.take(short.len() as int) =~= short);
    }
}

/// Every failure of a nested aggregate stands in the flattened tree, at
/// its place behind the node's own failures and those of the aggregates
/// before it, with the node's prefix put before its location.
pub proof fn law_nested_failures(node: ValidationErrorModel, k: int, j: int)
    requires
        0 <= k < node.validation_errors.len(),
        0 <= j < node.validation_errors[k].flatten().len(),
    ensures
        node.child_offset(k as nat) + j < node.flatten().len(),
        node.flatten()[node.child_offset(k as nat) + j] == node.validation_errors[k].flatten()[j].with_prefix(
            node.loc_prefix,
        ),
{
    let children = node.validation_errors;
    let prefix = node.loc_prefix;
    let before = ValidationErrorModel::flatten_children(children, prefix, k as nat);
    let upto = ValidationErrorModel::flatten_children(children, prefix, (k + 1) as nat);
    let all = ValidationErrorModel::flatten_children(children, prefix, children.len());
    lemma_children_prefix(children, prefix, (k + 1) as nat, children.len());
    assert(upto == before + prefixed(children[k].flatten(), prefix));
    assert(upto[before.len() + j] == children[k].flatten()[j].with_prefix(prefix));
    assert(all.take(upto.len() as int)[before.len() + j] == all[before.len() + j]);
}

/// Prefixes compose along the tree: a failure that an aggregate two levels
/// down yields at some location stands in the flattened root with the
/// root's prefix, then the prefix of the aggregate in between, put before
/// that location.
pub proof fn law_nested_prefixing(root: ValidationErrorModel, k: int, l: int, j: int)
    requires
        0 <= k < root.validation_errors.len(),
        0 <= l < root.validation_errors[k].validation_errors.len(),
        0 <= j < root.validation_errors[k].validation_errors[l].flatten().len(),
    ensures
        ({
            let child = root.validation_errors[k];
            let leaf = child.validation_errors[l].flatten()[j];
            let at = root.child_offset(k as nat) + child.child_offset(l as nat) + j;
            &&& at < root.flatten().len()
            &&& root.flatten()[at as int].location == root.loc_prefix + child.loc_prefix
                + leaf.location
            &&& root.flatten()[at as int].error_type == leaf.error_type
            &&& root.flatten()[at as int].input_value == leaf.input_value
        }),
{
    let child = root.validation_errors[k];
    let leaf = child.validation_errors[l].flatten()[j];
    law_nested_failures(child, l, j);
    law_nested_failures(root, k, child.child_offset(l as nat) + j);
    law_prefix_composition(leaf, child.loc_prefix, root.loc_prefix);
}

/// A failure that a nested aggregate holds itself stands in the flattened
/// root with the root's prefix alone put before its location: the prefix
/// of an aggregate is for what is nested in it, not for its own failures.
pub proof fn law_direct_leaf_prefixing(root: ValidationErrorModel, k: int, j: int)
    requires
        0 <= k < root.validation_errors.len(),
        0 <= j < root.validation_errors[k].line_errors.len(),
    ensures
        root.child_offset(k as nat) + j < root.flatten().len(),
        root.flatten()[root.child_offset(k as nat) + j].location == root.loc_prefix
            + root.validation_errors[k].line_errors[j].location,
{
    law_own_failures_first(root.validation_errors[k], j);
    law_nested_failures(root, k, j);
}

/// The text of a value of up to fifty characters is shown as it is. A
/// longer one is shown in fifty-two characters: its first twenty-five,
/// three dots, and its last twenty-four.
pub proof fn law_truncation_boundary(text: Seq<char>)
    ensures
        text.len() <= 50 ==> truncated(text) == text,
        text.len() > 50 ==> {
            &&& truncated(text).len() == 52
            &&& truncated(text).subrange(0, 25) == text.subrange(0, 25)
            &&& truncated(text).subrange(25, 28) == seq!['.', '.', '.']
            &&& truncated(text).subrange(28, 52) == text.subrange(
                text.len() - 24,
                text.len() as int,
            )
        },
{
    reveal_strlit("...");
    if text.len() > 50 {
        let shown = truncated(text);
        assert("..."@ =~= seq!['.', '.', '.']);
        assert(shown.len() == 52);
        assert(shown.subrange(0, 25) =~= text.subrange(0, 25));
        assert(shown.subrange(25, 28) =~= seq!['.', '.', '.']);
        assert(shown.subrange(28, 52) =~= text.subrange(text.len() - 24, text.len() as int));
    }
}

/// Whether every failure is of a kind that the caller defined.
pub open spec fn all_custom(errors: Seq<LineErrorModel>) -> bool {
    forall|i: int| 0 <= i < errors.len() ==> (#[trigger] errors[i]).error_type.is_custom()
}

/// The names of the entries of a record differ from each other.
pub proof fn lemma_record_keys_differ()
    ensures
        "type"@ != "loc"@,
        "type"@ != "msg"@,
        "type"@ != "input"@,
        "type"@ != "ctx"@,
        "type"@ != "url"@,
        "loc"@ != "msg"@,
        "loc"@ != "input"@,
        "loc"@ != "ctx"@,
        "loc"@ != "url"@,
        "msg"@ != "input"@,
        "msg"@ != "ctx"@,
        "msg"@ != "url"@,
        "input"@ != "ctx"@,
        "input"@ != "url"@,
        "ctx"@ != "url"@,
{
    reveal_strlit("type");
    reveal_strlit("loc");
    reveal_strlit("msg");
    reveal_strlit("input");
    reveal_strlit("ctx");
    reveal_strlit("url");
    assert("type"@.len() == 4);
    assert("input"@.len() == 5);
    assert("loc"@.len() == 3);
    assert("loc"@[0] == 'l');
    assert("msg"@[0] == 'm');
    assert("ctx"@[0] == 'c');
    assert("url"@[0] == 'u');
}

/// What stands under each name in the record of a failure: the four
/// entries that are always there, the context where it is shown, and the
/// address where it is shown.
pub proof fn lemma_record_entries(
    failure: LineErrorModel,
    message: Seq<char>,
    url_prefix: Option<Seq<char>>,
    include_context: bool,
)
    ensures
        ({
            let fields = failure.record_fields(message, url_prefix, include_context);
            &&& field_of(fields, "type"@) == Some(
                DataModel::Str(failure.error_type.type_string()),
            )
            &&& field_of(fields, "loc"@) == Some(location_record(failure.location))
            &&& field_of(fields, "msg"@) == Some(DataModel::Str(message))
            &&& field_of(fields, "input"@) == Some(failure.input_value.value)
            &&& field_of(fields, "ctx"@) == if failure.shows_context(include_context) {
                failure.error_type.context()
            } else {
                None
            }
            &&& field_of(fields, "url"@) == if failure.shows_url(url_prefix) {
                Some(DataModel::Str(failure.url(url_prefix->0)))
            } else {
                None
            }
        }),
{
    let fields = failure.record_fields(message, url_prefix, include_context);
    lemma_record_keys_differ();
    crate::data::lemma_first_field(fields, "type"@, 0);
    crate::data::lemma_first_field(fields, "loc"@, 1);
    crate::data::lemma_first_field(fields, "msg"@, 2);
    crate::data::lemma_first_field(fields, "input"@, 3);
    if failure.shows_context(include_context) {
        crate::data::lemma_first_field(fields, "ctx"@, 4);
        crate::data::lemma_first_field(fields, "url"@, 5);
    } else {
        crate::data::lemma_first_field(fields, "ctx"@, fields.len() as int);
        crate::data::lemma_first_field(fields, "url"@, 4);
    }
}

/// A failure of a kind that the caller defined never names a
/// documentation address: with any prefix its record and its diagnostic
/// text are what they are without one, and its record has no entry `url`.
pub proof fn law_custom_kind_has_no_url(
    failure: LineErrorModel,
    url_prefix: Seq<char>,
    include_context: bool,
    mode: ErrorMode,
)
    requires
        failure.error_type.is_custom(),
    ensures
        failure.record(Some(url_prefix), include_context, mode) == failure.record(
            None,
            include_context,
            mode,
        ),
        failure.pretty(mode, Some(url_prefix)) == failure.pretty(mode, None),
        failure.record(Some(url_prefix), include_context, mode) matches Ok(DataModel::Dict(fields))
            && field_of(fields, "url"@) is None,
{
    let message = failure.error_type.message(mode)->Ok_0;
    lemma_record_entries(failure, message, Some(url_prefix), include_context);
}

/// The records of failures that the caller defined are the same with any
/// prefix as without one.
pub proof fn lemma_custom_records(
    errors: Seq<LineErrorModel>,
    url_prefix: Seq<char>,
    include_context: bool,
    mode: ErrorMode,
    n: nat,
)
    requires
        all_custom(errors),
    ensures
        records(errors, Some(url_prefix), include_context, mode, n) == records(
            errors,
            None,
            include_context,
            mode,
            n,
        ),
    decreases n,
{
    if n == 0 || n > errors.len() {
    } else {
        lemma_custom_records(errors, url_prefix, include_context, mode, (n - 1) as nat);
        assert(errors[n - 1].error_type.is_custom());
        law_custom_kind_has_no_url(errors[n - 1], url_prefix, include_context, mode);
    }
}

/// A report of failures that the caller defined never names a
/// documentation address, whatever prefix is in force: its records, its
/// JSON text and its diagnostic text are what they are without one.
pub proof fn law_custom_report_has_no_url(
    node: ValidationErrorModel,
    url_prefix: Seq<char>,
    include_context: bool,
    indent: Option<nat>,
    prefix_override: Option<Seq<char>>,
)
    requires
        all_custom(node.flatten()),
    ensures
        node.errors(Some(url_prefix), include_context) == node.errors(None, include_context),
        node.json(Some(url_prefix), indent, include_context) == node.json(
            None,
            indent,
            include_context,
        ),
        node.display(Some(url_prefix), prefix_override) == node.display(None, prefix_override),
{
    let flat = node.flatten();
    lemma_custom_records(flat, url_prefix, include_context, node.error_mode, flat.len());
    assert forall|i: int| 0 <= i < flat.len() implies flat[i].pretty(
        node.error_mode,
        Some(url_prefix),
    ) == flat[i].pretty(node.error_mode, None) by {
        assert(flat[i].error_type.is_custom());
        law_custom_kind_has_no_url(flat[i], url_prefix, include_context, node.error_mode);
    }
    assert(pretty_lines(flat, node.error_mode, Some(url_prefix)) =~= pretty_lines(
        flat,
        node.error_mode,
        None,
    ));
}

/// The record of a path stands for that path again.
pub proof fn law_location_round_trip(path: Seq<LocItemModel>)
    ensures
        parse_location(location_record(path)) == Ok::<Seq<LocItemModel>, InputError>(path),
{
    let items = location_record(path)->List_0;
    assert forall|i: int| 0 <= i < items.len() implies (#[trigger] LocItemModel::parse(
        items[i],
    )) == Some(path[i]) by {}
    assert(all_segments(items));
    assert(parse_location(location_record(path))->Ok_0 =~= path);
}

/// The kind that a name stands for bears that name.
pub proof fn law_kind_bears_its_name(name: Seq<char>)
    ensures
        ErrorKind::by_key(name) matches Some(kind) ==> kind.key() == name,
{
}

/// A failure built from the record of another, without its context and
/// its address, and on the same input, is of the same type string, at the
/// same location and on the same value.
pub proof fn law_record_round_trip(failure: LineErrorModel, message: Seq<char>)
    ensures
        LineErrorModel::parse(
            DataModel::Dict(failure.record_fields(message, None, false)),
            Some(failure.input_value),
        ) matches Ok(rebuilt) ==> {
            &&& rebuilt.error_type.type_string() == failure.error_type.type_string()
            &&& rebuilt.location == failure.location
            &&& rebuilt.input_value == failure.input_value
        },
{
    lemma_record_entries(failure, message, None, false);
    law_location_round_trip(failure.location);
    law_kind_bears_its_name(failure.error_type.type_string());
}

/// The items that stand for the given records, each on the input of the
/// failure at its place.
pub open spec fn record_items(rs: Seq<DataModel>, errors: Seq<LineErrorModel>) -> Seq<
    ErrorItemModel,
> {
    Seq::new(
        rs.len(),
        |i: int| ErrorItemModel::Record { record: rs[i], input: Some(errors[i].input_value) },
    )
}

/// The round trip of the first `n` failures: where their records, taken
/// without context and address, stand for leaf failures again, these are
/// as many, and each is of the same type string, at the same location and
/// on the same value as the one at its place.
pub proof fn lemma_records_round_trip(errors: Seq<LineErrorModel>, mode: ErrorMode, n: nat)
    requires
        n <= errors.len(),
    ensures
        records(errors, None, false, mode, n) matches Ok(rs) ==> (partition(
            record_items(rs, errors),
            n,
        ) matches Ok((lines, nodes)) ==> {
            &&& rs.len() == n
            &&& nodes.len() == 0
            &&& lines.len() == n
            &&& forall|i: int|
                0 <= i < n ==> {
                    &&& (#[trigger] lines[i]).error_type.type_string()
                        == errors[i].error_type.type_string()
                    &&& lines[i].location == errors[i].location
                    &&& lines[i].input_value == errors[i].input_value
                }
        }),
    decreases n,
{
    if n == 0 {
    } else {
        match records(errors, None, false, mode, n) {
            Ok(rs) => {
                let head = records(errors, None, false, mode, (n - 1) as nat)->Ok_0;
                lemma_records_round_trip(errors, mode, (n - 1) as nat);
                lemma_records_len(errors, mode, n);
                lemma_records_len(errors, mode, (n - 1) as nat);
                lemma_partition_of_prefix(
                    record_items(rs, errors),
                    record_items(head, errors),
                    (n - 1) as nat,
                );
                let message = errors[n - 1].error_type.message(mode)->Ok_0;
                law_record_round_trip(errors[n - 1], message);
                assert(rs == head.push(rs[n - 1]));
                assert(record_items(rs, errors)[n - 1] == (ErrorItemModel::Record {
                    record: rs[n - 1],
                    input: Some(errors[n - 1].input_value),
                }));
            },
            Err(_) => {},
        }
    }
}

/// There are as many records as failures.
pub proof fn lemma_records_len(errors: Seq<LineErrorModel>, mode: ErrorMode, n: nat)
    requires
        n <= errors.len(),
    ensures
        records(errors, None, false, mode, n) matches Ok(rs) ==> rs.len() == n,
    decreases n,
{
    if n > 0 {
        lemma_records_len(errors, mode, (n - 1) as nat);
    }
}

/// Parting the first `n` items looks at those items only.
pub proof fn lemma_partition_of_prefix(
    items: Seq<ErrorItemModel>,
    others: Seq<ErrorItemModel>,
    n: nat,
)
    requires
        n <= items.len(),
        n <= others.len(),
        forall|i: int| 0 <= i < n ==> items[i] == others[i],
    ensures
        partition(items, n) == partition(others, n),
    decreases n,
{
    if n > 0 {
        lemma_partition_of_prefix(items, others, (n - 1) as nat);
    }
}

/// The round trip of a report: an aggregate built from the records of
/// another, taken without context and address, each with the input of
/// the failure it came from, flattens to as many leaf
/// failures, and each is of the same type string and at the same location
/// as the one at its place in the first aggregate, flattened. This holds wherever
/// the records stand for leaf failures again.
pub proof fn law_report_round_trip(node: ValidationErrorModel, rebuilt: ValidationErrorModel)
    requires
        node.errors(None, false) matches Ok(rs) && partition(
            record_items(rs, node.flatten()),
            rs.len(),
        )
            == Ok::<(Seq<LineErrorModel>, Seq<ValidationErrorModel>), InputError>(
            (rebuilt.line_errors, rebuilt.validation_errors),
        ),
    ensures
        rebuilt.flatten().len() == node.flatten().len(),
        forall|i: int|
            0 <= i < node.flatten().len() ==> {
                &&& (#[trigger] rebuilt.flatten()[i]).error_type.type_string()
                    == node.flatten()[i].error_type.type_string()
                &&& rebuilt.flatten()[i].location == node.flatten()[i].location
            },
{
    let flat = node.flatten();
    lemma_records_round_trip(flat, node.error_mode, flat.len());
    lemma_records_len(flat, node.error_mode, flat.len());
    assert(rebuilt.validation_errors.len() == 0);
    assert(rebuilt.flatten() =~= rebuilt.line_errors);
}

/// The names of the built-in kinds differ from each other: each name
/// stands for the kind that bears it.
pub proof fn law_kind_names_are_stable(kind: ErrorKind)
    ensures
        ErrorKind::by_key(kind.key()) == Some(kind),
{
    reveal_strlit("missing");
    reveal_strlit("extra_forbidden");
    reveal_strlit("none_required");
    reveal_strlit("bool_type");
    reveal_strlit("int_type");
    reveal_strlit("int_parsing");
    reveal_strlit("string_type");
    reveal_strlit("string_too_short");
    reveal_strlit("string_too_long");
    reveal_strlit("list_type");
    reveal_strlit("dict_type");
    reveal_strlit("greater_than");
    reveal_strlit("less_than");
    reveal_strlit("too_short");
    reveal_strlit("too_long");
    assert("missing"@.len() == 7);
    assert("extra_forbidden"@.len() == 15);
    assert("none_required"@.len() == 13);
    assert("bool_type"@.len() == 9);
    assert("int_type"@.len() == 8);
    assert("int_parsing"@.len() == 11);
    assert("string_type"@.len() == 11);
    assert("string_too_short"@.len() == 16);
    assert("string_too_long"@.len() == 15);
    assert("list_type"@.len() == 9);
    assert("dict_type"@.len() == 9);
    assert("greater_than"@.len() == 12);
    assert("less_than"@.len() == 9);
    assert("too_short"@.len() == 9);
    assert("too_long"@.len() == 8);
    assert("extra_forbidden"@[0] == 'e');
    assert("string_too_long"@[0] == 's');
    assert("bool_type"@[0] == 'b');
    assert("list_type"@[0] == 'l');
    assert("list_type"@[1] == 'i');
    assert("dict_type"@[0] == 'd');
    assert("less_than"@[0] == 'l');
    assert("less_than"@[1] == 'e');
    assert("too_short"@[0] == 't');
    assert("int_type"@[0] == 'i');
    assert("too_long"@[0] == 't');
    assert("int_parsing"@[0] == 'i');
    assert("string_type"@[0] == 's');
}

/// An error type that was built from a name and a context can be
/// rendered in either mode.
pub proof fn law_built_error_renders(
    name: Seq<char>,
    context: Option<Seq<(Seq<char>, DataModel)>>,
    mode: ErrorMode,
)
    ensures
        ErrorTypeModel::build(name, context) matches Ok(error_type) ==> error_type.message(mode)
            is Ok,
{
    match ErrorTypeModel::build(name, context) {
        Ok(error_type) => {
            let kind = error_type->Known_kind;
            if kind.takes_context() {
                assert(kind.template(mode) == kind.template(ErrorMode::Python));
            } else {
                lemma_plain_kind_renders(kind, mode, error_type->Known_context);
            }
        },
        Err(_) => {},
    }
}

/// The message of a kind without context values is its fixed words,
/// whatever the context holds.
pub proof fn lemma_plain_kind_renders(
    kind: ErrorKind,
    mode: ErrorMode,
    context: Seq<(Seq<char>, DataModel)>,
)
    requires
        !kind.takes_context(),
    ensures
        crate::kind::render_template(kind.template(mode), context, kind.template(mode).len())
            is Ok,
{
    let template = kind.template(mode);
    assert(template.len() == 1);
    assert(template[0] is Text);
    assert(crate::kind::render_template(template, context, 0) is Ok);
}

/// For failures of built-in kinds without context values the round trip
/// always succeeds: the record of such a failure, taken without context
/// and address, stands for a failure of the same kind at the same
/// location on the same value.
pub proof fn law_plain_kind_round_trip(failure: LineErrorModel, message: Seq<char>)
    requires
        failure.error_type matches ErrorTypeModel::Known { kind, context } && !kind.takes_context()
            && context.len() == 0,
    ensures
        LineErrorModel::parse(
            DataModel::Dict(failure.record_fields(message, None, false)),
            Some(failure.input_value),
        ) == Ok::<LineErrorModel, InputError>(failure),
{
    lemma_record_entries(failure, message, None, false);
    law_location_round_trip(failure.location);
    law_kind_names_are_stable(failure.error_type->Known_kind);
    assert(failure.error_type->Known_context =~= Seq::empty());
}

/// Deriving keeps every leaf failure where it was found: in the flattened
/// new aggregate the added leaf failures come first, as they are, and the
/// leaf failures that the aggregate held itself come next, as they are. No
/// prefix is put before either.
pub proof fn law_derive_keeps_leaves(
    node: ValidationErrorModel,
    line_errors: Seq<LineErrorModel>,
    validation_errors: Seq<ValidationErrorModel>,
)
    ensures
        ({
            let flat = node.derived(line_errors, validation_errors).flatten();
            &&& flat.len() >= line_errors.len() + node.line_errors.len()
            &&& forall|i: int| 0 <= i < line_errors.len() ==> flat[i] == line_errors[i]
            &&& forall|j: int|
                0 <= j < node.line_errors.len() ==> flat[line_errors.len() + j]
                    == node.line_errors[j]
        }),
{
}

/// A run of nested aggregates counts as many leaf failures as its two
/// parts together.
pub proof fn lemma_count_of_two_runs(
    first: Seq<ValidationErrorModel>,
    second: Seq<ValidationErrorModel>,
    n: nat,
)
    requires
        n <= second.len(),
    ensures
        ValidationErrorModel::count_children(first + second, first.len() + n)
            == ValidationErrorModel::count_children(first, first.len())
            + ValidationErrorModel::count_children(second, n),
    decreases n,
{
    let both = first + second;
    if n == 0 {
        lemma_count_of_same_run(both, first, first.len());
    } else {
        lemma_count_of_two_runs(first, second, (n - 1) as nat);
        assert(both[first.len() + n - 1] == second[n - 1]);
    }
}

/// Counting the first `n` children looks at those children only.
pub proof fn lemma_count_of_same_run(
    children: Seq<ValidationErrorModel>,
    others: Seq<ValidationErrorModel>,
    n: nat,
)
    requires
        n <= children.len(),
        n <= others.len(),
        forall|i: int| 0 <= i < n ==> children[i] == others[i],
    ensures
        ValidationErrorModel::count_children(children, n) == ValidationErrorModel::count_children(
            others,
            n,
        ),
    decreases n,
{
    if n > 0 {
        lemma_count_of_same_run(children, others, (n - 1) as nat);
    }
}

/// Deriving adds and loses nothing: the new aggregate counts the added
/// leaf failures, those of the added aggregates, and those that the
/// aggregate counted before.
pub proof fn law_derive_counts(
    node: ValidationErrorModel,
    line_errors: Seq<LineErrorModel>,
    validation_errors: Seq<ValidationErrorModel>,
)
    ensures
        node.derived(line_errors, validation_errors).count() == line_errors.len()
            + ValidationErrorModel::count_children(validation_errors, validation_errors.len())
            + node.count(),
{
    lemma_count_of_two_runs(
        validation_errors,
        node.validation_errors,
        node.validation_errors.len(),
    );
}

} // verus!
