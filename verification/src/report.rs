//! The aggregate: a tree of leaf failures under a title, and what can be
//! read off it.
use std::sync::Arc;
use vstd::prelude::*;
use vstd::string::*;
use crate::data::{Data, DataModel, InputValue, InputValueModel};
use crate::failure::InputError;
use crate::kind::ErrorMode;
use crate::line_error::{LineErrorModel, PyLineError, ValLineError};
use crate::location::{parse_location, LocItem, LocItemModel, Location};

verus! {

/// Calls `Arc::clone` of std, which hands out one more handle on the same
/// value and copies nothing.
#[verifier::external_body]
pub(crate) fn share<T>(handle: &Arc<T>) -> (r: Arc<T>)
    ensures
        r == *handle,
{
    Arc::clone(handle)
}

/// A node of the tree: its own leaf failures, the aggregates nested in it,
/// the mode in which messages are phrased, the title of the report, and
/// the path that is put before every failure that comes from a nested
/// aggregate.
#[derive(Debug, PartialEq, Eq)]
pub struct ValidationError {
    pub line_errors: Vec<Arc<PyLineError>>,
    pub validation_errors: Vec<Arc<ValidationError>>,
    pub error_mode: ErrorMode,
    pub message: String,
    pub loc_prefix: Location,
}

/// What a [`ValidationError`] stands for.
pub struct ValidationErrorModel {
    pub line_errors: Seq<LineErrorModel>,
    pub validation_errors: Seq<ValidationErrorModel>,
    pub error_mode: ErrorMode,
    pub title: Seq<char>,
    pub loc_prefix: Seq<LocItemModel>,
}

/// What a sequence of leaf failures stands for, item by item.
pub open spec fn line_models(errors: Seq<PyLineError>) -> Seq<LineErrorModel> {
    Seq::new(errors.len(), |i: int| errors[i]@)
}

/// What a sequence of shared leaf failures stands for, item by item.
pub open spec fn shared_line_models(errors: Seq<Arc<PyLineError>>) -> Seq<LineErrorModel> {
    Seq::new(errors.len(), |i: int| (*errors[i])@)
}

/// What a sequence of shared aggregates stands for, item by item.
pub open spec fn shared_models(nodes: Seq<Arc<ValidationError>>) -> Seq<ValidationErrorModel> {
    Seq::new(nodes.len(), |i: int| (*nodes[i]).model())
}

/// Each failure of `errors` with `prefix` put before its location.
pub open spec fn prefixed(errors: Seq<LineErrorModel>, prefix: Seq<LocItemModel>) -> Seq<
    LineErrorModel,
> {
    Seq::new(errors.len(), |i: int| errors[i].with_prefix(prefix))
}

impl ValidationError {
    /// What the aggregate stands for.
    pub open spec fn model(self) -> ValidationErrorModel
        decreases self,
    {
        ValidationErrorModel {
            line_errors: shared_line_models(self.line_errors@),
            validation_errors: Seq::new(
                self.validation_errors.len() as nat,
                |i: int|
                    if 0 <= i < self.validation_errors.len() {
                        (*self.validation_errors[i]).model()
                    } else {
                        ValidationErrorModel::blank()
                    },
            ),
            error_mode: self.error_mode,
            title: self.message@,
            loc_prefix: self.loc_prefix@,
        }
    }
}

impl View for ValidationError {
    type V = ValidationErrorModel;

    open spec fn view(&self) -> ValidationErrorModel {
        self.model()
    }
}

/// An aggregate stands for a node whose children are what its nested
/// aggregates stand for.
pub proof fn lemma_children_model(node: ValidationError)
    ensures
        node@.validation_errors == shared_models(node.validation_errors@),
{
    assert(node@.validation_errors =~= shared_models(node.validation_errors@));
}

impl ValidationErrorModel {
    /// A node without failures, in the default mode, under the empty title.
    pub open spec fn blank() -> ValidationErrorModel {
        ValidationErrorModel {
            line_errors: Seq::empty(),
            validation_errors: Seq::empty(),
            error_mode: ErrorMode::Python,
            title: Seq::empty(),
            loc_prefix: Seq::empty(),
        }
    }

    /// Every leaf failure of the tree, depth first: the node's own
    /// failures as they are, then those of each nested aggregate in
    /// order, each with the node's prefix put before its location.
    pub open spec fn flatten(self) -> Seq<LineErrorModel>
        decreases self,
    {
        self.line_errors + Self::flatten_children(
            self.validation_errors,
            self.loc_prefix,
            self.validation_errors.len(),
        )
    }

    /// The flattened failures of the first `n` of `children`, in order,
    /// each with `prefix` put before its location.
    pub open spec fn flatten_children(
        children: Seq<ValidationErrorModel>,
        prefix: Seq<LocItemModel>,
        n: nat,
    ) -> Seq<LineErrorModel>
        decreases children, n,
    {
        if n == 0 || n > children.len() {
            Seq::empty()
        } else {
            Self::flatten_children(children, prefix, (n - 1) as nat) + prefixed(
                children[n - 1].flatten(),
                prefix,
            )
        }
    }

    /// The number of leaf failures of the tree: the node's own, and those
    /// of every nested aggregate.
    pub open spec fn count(self) -> nat
        decreases self,
    {
        self.line_errors.len() + Self::count_children(
            self.validation_errors,
            self.validation_errors.len(),
        )
    }

    /// The number of leaf failures of the first `n` of `children`.
    pub open spec fn count_children(children: Seq<ValidationErrorModel>, n: nat) -> nat
        decreases children, n,
    {
        if n == 0 || n > children.len() {
            0
        } else {
            Self::count_children(children, (n - 1) as nat) + children[n - 1].count()
        }
    }

    /// The node with `line_errors` and `validation_errors` put before its
    /// own; mode, title and prefix stay.
    pub open spec fn derived(
        self,
        line_errors: Seq<LineErrorModel>,
        validation_errors: Seq<ValidationErrorModel>,
    ) -> ValidationErrorModel {
        ValidationErrorModel {
            line_errors: line_errors + self.line_errors,
            validation_errors: validation_errors + self.validation_errors,
            ..self
        }
    }
}

/// The tree counts as many leaf failures as flattening it yields, and so
/// does every run of nested aggregates.
pub proof fn lemma_count_is_flatten_len(node: ValidationErrorModel)
    ensures
        node.count() == node.flatten().len(),
    decreases node,
{
    lemma_count_children(node.validation_errors, node.loc_prefix, node.validation_errors.len());
}

/// The first `n` of `children` count as many leaf failures as flattening
/// them yields.
pub proof fn lemma_count_children(
    children: Seq<ValidationErrorModel>,
    prefix: Seq<LocItemModel>,
    n: nat,
)
    ensures
        ValidationErrorModel::count_children(children, n) == ValidationErrorModel::flatten_children(
            children,
            prefix,
            n,
        ).len(),
    decreases children, n,
{
    if n == 0 || n > children.len() {
    } else {
        lemma_count_children(children, prefix, (n - 1) as nat);
        lemma_count_is_flatten_len(children[n - 1]);
    }
}

/// No run of nested aggregates counts more leaf failures than a longer
/// run of the same.
pub proof fn lemma_count_children_grows(children: Seq<ValidationErrorModel>, n: nat, m: nat)
    requires
        n <= m <= children.len(),
    ensures
        ValidationErrorModel::count_children(children, n) <= ValidationErrorModel::count_children(
            children,
            m,
        ),
    decreases m,
{
    if n < m {
        lemma_count_children_grows(children, n, (m - 1) as nat);
    }
}

impl ValidationError {
    /// An aggregate of leaf failures only: no nested aggregates and the
    /// empty prefix.
    pub fn new(line_errors: Vec<PyLineError>, message: String, error_mode: ErrorMode) -> (r:
        ValidationError)
        ensures
            r@.line_errors == line_models(line_errors@),
            r@.validation_errors.len() == 0,
            r@.error_mode == error_mode,
            r@.title == message@,
            r@.loc_prefix.len() == 0,
    {
        let ghost wanted = line_models(line_errors@);
        let mut shared: Vec<Arc<PyLineError>> = Vec::new();
        for e in iter: line_errors
            invariant
                iter.seq() == line_errors@,
                wanted == line_models(iter.seq()),
                shared.len() == iter.index(),
                forall|j: int| 0 <= j < shared.len() ==> (*shared[j])@ == wanted[j],
        {
            shared.push(Arc::new(e));
        }
        let r = ValidationError {
            line_errors: shared,
            validation_errors: Vec::new(),
            error_mode,
            message,
            loc_prefix: Location::empty(),
        };
        assert(r@.line_errors =~= wanted);
        r
    }

    /// An aggregate of the given parts.
    pub fn new_with_val_errors(
        line_errors: Vec<Arc<PyLineError>>,
        validation_errors: Vec<Arc<ValidationError>>,
        message: String,
        error_mode: ErrorMode,
        loc_prefix: Location,
    ) -> (r: ValidationError)
        ensures
            r.line_errors == line_errors,
            r.validation_errors == validation_errors,
            r.message == message,
            r.error_mode == error_mode,
            r.loc_prefix == loc_prefix,
    {
        ValidationError { line_errors, validation_errors, message, error_mode, loc_prefix }
    }

    /// The title of the report.
    pub fn title(&self) -> (r: &str)
        ensures
            r@ == self@.title,
    {
        self.message.as_str()
    }

    /// Every leaf failure of the tree, depth first: this node's own
    /// failures as they are, then those of each nested aggregate in the
    /// order in which they were entered, each with this node's prefix put
    /// before its location.
    #[verifier::loop_isolation(false)]
    pub fn flatten_errors(&self) -> (r: Vec<PyLineError>)
        ensures
            line_models(r@) == self@.flatten(),
        decreases self,
    {
        let ghost node = self@;
        proof {
            lemma_children_model(*self);
        }
        let mut res: Vec<PyLineError> = Vec::new();
        let mut i: usize = 0;
        while i < self.line_errors.len()
            invariant
                i <= self.line_errors.len(),
                res.len() == i,
                forall|j: int| 0 <= j < i ==> res[j]@ == node.line_errors[j],
            decreases self.line_errors.len() - i,
        {
            res.push((*self.line_errors[i]).clone());
            i += 1;
        }
        assert(line_models(res@) =~= node.line_errors);
        let mut k: usize = 0;
        while k < self.validation_errors.len()
            invariant
                k <= self.validation_errors.len(),
                line_models(res@) == node.line_errors + ValidationErrorModel::flatten_children(
                    node.validation_errors,
                    node.loc_prefix,
                    k as nat,
                ),
            decreases self.validation_errors.len() - k,
        {
            let child = &self.validation_errors[k];
            let inner = child.flatten_errors();
            let ghost before = line_models(res@);
            let ghost added = prefixed(node.validation_errors[k as int].flatten(), node.loc_prefix);
            let mut j: usize = 0;
            while j < inner.len()
                invariant
                    j <= inner.len(),
                    line_models(inner@) == node.validation_errors[k as int].flatten(),
                    line_models(res@) == before + added.take(j as int),
                decreases inner.len() - j,
            {
                let e = inner[j].with_prefix(&self.loc_prefix);
                let ghost prev = line_models(res@);
                assert(added.len() == inner.len());
                assert(line_models(inner@)[j as int] == inner[j as int]@);
                assert(e@ == added[j as int]);
                res.push(e);
                assert(line_models(res@) =~= prev.push(added[j as int]));
                assert(prev.push(added[j as int]) =~= before + added.take(j + 1));
                j += 1;
            }
            assert(added.take(inner.len() as int) =~= added);
            assert(before + added =~= node.line_errors + ValidationErrorModel::flatten_children(
                node.validation_errors,
                node.loc_prefix,
                (k + 1) as nat,
            ));
            k += 1;
        }
        res
    }
}

impl Clone for ValidationError {
    /// One more aggregate on the same leaf failures and nested
    /// aggregates: what it holds is shared, not copied.
    fn clone(&self) -> (r: Self)
        ensures
            r@ == self@,
    {
        let mut line_errors: Vec<Arc<PyLineError>> = Vec::new();
        let mut i: usize = 0;
        while i < self.line_errors.len()
            invariant
                i <= self.line_errors.len(),
                line_errors.len() == i,
                forall|j: int| 0 <= j < i ==> line_errors[j] == self.line_errors[j],
            decreases self.line_errors.len() - i,
        {
            line_errors.push(share(&self.line_errors[i]));
            i += 1;
        }
        let mut validation_errors: Vec<Arc<ValidationError>> = Vec::new();
        let mut k: usize = 0;
        while k < self.validation_errors.len()
            invariant
                k <= self.validation_errors.len(),
                validation_errors.len() == k,
                forall|j: int| 0 <= j < k ==> validation_errors[j] == self.validation_errors[j],
            decreases self.validation_errors.len() - k,
        {
            validation_errors.push(share(&self.validation_errors[k]));
            k += 1;
        }
        let r = ValidationError {
            line_errors,
            validation_errors,
            error_mode: self.error_mode,
            message: self.message.clone(),
            loc_prefix: self.loc_prefix.clone(),
        };
        proof {
            lemma_children_model(r);
            lemma_children_model(*self);
            assert(r@.line_errors =~= self@.line_errors);
            assert(r@.validation_errors =~= self@.validation_errors);
        }
        r
    }
}

impl ValidationError {
    /// The number of leaf failures of the tree: this node's own, and
    /// those of every nested aggregate. The number must fit the machine's
    /// word.
    pub fn error_count(&self) -> (r: usize)
        requires
            self@.count() <= usize::MAX,
        ensures
            r == self@.count(),
            r == self@.flatten().len(),
    {
        proof {
            lemma_count_is_flatten_len(self@);
        }
        match self.checked_error_count() {
            Some(count) => count,
            None => unreached(),
        }
    }

    /// The number of leaf failures of the tree if it fits the machine's
    /// word, else nothing.
    #[verifier::loop_isolation(false)]
    pub fn checked_error_count(&self) -> (r: Option<usize>)
        ensures
            match r {
                Some(count) => count == self@.count(),
                None => self@.count() > usize::MAX,
            },
        decreases self,
    {
        let ghost node = self@;
        proof {
            lemma_children_model(*self);
        }
        let mut res: usize = self.line_errors.len();
        let mut k: usize = 0;
        while k < self.validation_errors.len()
            invariant
                k <= self.validation_errors.len(),
                res == node.line_errors.len() + ValidationErrorModel::count_children(
                    node.validation_errors,
                    k as nat,
                ),
            decreases self.validation_errors.len() - k,
        {
            proof {
                lemma_count_children_grows(
                    node.validation_errors,
                    (k + 1) as nat,
                    node.validation_errors.len(),
                );
            }
            let child = &self.validation_errors[k];
            let inner = match child.checked_error_count() {
                Some(inner) => inner,
                None => {
                    return None;
                },
            };
            res = match res.checked_add(inner) {
                Some(sum) => sum,
                None => {
                    return None;
                },
            };
            k += 1;
        }
        Some(res)
    }
}

/// One of the items from which an aggregate is built: an aggregate that
/// exists already, or a raw value that is to stand for a leaf failure,
/// with the input that it names as the host describes it.
#[derive(Debug, PartialEq, Eq)]
pub enum ErrorItem {
    Aggregate(Arc<ValidationError>),
    Record { record: Data, input: Option<InputValue> },
}

/// What an [`ErrorItem`] stands for.
pub enum ErrorItemModel {
    Aggregate(ValidationErrorModel),
    Record { record: DataModel, input: Option<InputValueModel> },
}

impl View for ErrorItem {
    type V = ErrorItemModel;

    open spec fn view(&self) -> ErrorItemModel {
        match self {
            ErrorItem::Aggregate(node) => ErrorItemModel::Aggregate((**node).model()),
            ErrorItem::Record { record, input } => ErrorItemModel::Record {
                record: record@,
                input: match input {
                    Some(given) => Some(given@),
                    None => None,
                },
            },
        }
    }
}

/// What a sequence of items stands for, item by item.
pub open spec fn item_models(items: Seq<ErrorItem>) -> Seq<ErrorItemModel> {
    Seq::new(items.len(), |i: int| items[i]@)
}

/// The first `n` of `items` parted into leaf failures and aggregates,
/// each kind in the order of the items; or the failure of the first raw
/// value that stands for no leaf failure.
pub open spec fn partition(items: Seq<ErrorItemModel>, n: nat) -> Result<
    (Seq<LineErrorModel>, Seq<ValidationErrorModel>),
    InputError,
>
    decreases n,
{
    if n == 0 || n > items.len() {
        Ok((Seq::empty(), Seq::empty()))
    } else {
        match partition(items, (n - 1) as nat) {
            Err(e) => Err(e),
            Ok((lines, nodes)) => match items[n - 1] {
                ErrorItemModel::Aggregate(node) => Ok((lines, nodes.push(node))),
                ErrorItemModel::Record { record, input } => match LineErrorModel::parse(
                    record,
                    input,
                ) {
                    Ok(line) => Ok((lines.push(line), nodes)),
                    Err(e) => Err(e),
                },
            },
        }
    }
}

/// Once a run of items fails, every longer run fails in the same way.
pub proof fn lemma_partition_fails(items: Seq<ErrorItemModel>, n: nat, m: nat)
    requires
        n <= m <= items.len(),
        partition(items, n) is Err,
    ensures
        partition(items, m) == partition(items, n),
    decreases m,
{
    if n < m {
        lemma_partition_fails(items, n, (m - 1) as nat);
    }
}

/// The shared leaf failures and the shared aggregates that `errors` stand
/// for, each kind in the order of the items. An item is an aggregate if it
/// is one; any other must stand for a leaf failure, and the first that does
/// not decides the failure.
pub fn partition_errors(errors: &Vec<ErrorItem>) -> (r: Result<
    (Vec<Arc<PyLineError>>, Vec<Arc<ValidationError>>),
    InputError,
>)
    ensures
        match r {
            Ok((lines, nodes)) => partition(item_models(errors@), errors.len() as nat) == Ok::<
                (Seq<LineErrorModel>, Seq<ValidationErrorModel>),
                InputError,
            >((shared_line_models(lines@), shared_models(nodes@))),
            Err(e) => partition(item_models(errors@), errors.len() as nat) == Err::<
                (Seq<LineErrorModel>, Seq<ValidationErrorModel>),
                InputError,
            >(e),
        },
{
    let ghost items = item_models(errors@);
    let mut line_errors: Vec<Arc<PyLineError>> = Vec::new();
    let mut validation_errors: Vec<Arc<ValidationError>> = Vec::new();
    let mut i: usize = 0;
    assert(shared_line_models(line_errors@) =~= Seq::empty());
    assert(shared_models(validation_errors@) =~= Seq::empty());
    while i < errors.len()
        invariant
            i <= errors.len(),
            items == item_models(errors@),
            partition(items, i as nat) == Ok::<
                (Seq<LineErrorModel>, Seq<ValidationErrorModel>),
                InputError,
            >((shared_line_models(line_errors@), shared_models(validation_errors@))),
        decreases errors.len() - i,
    {
        let ghost lines = shared_line_models(line_errors@);
        let ghost nodes = shared_models(validation_errors@);
        assert(items[i as int] == errors[i as int]@);
        match &errors[i] {
            ErrorItem::Aggregate(node) => {
                validation_errors.push(share(node));
                assert(shared_models(validation_errors@) =~= nodes.push((**node).model()));
            },
            ErrorItem::Record { record, input } => match PyLineError::try_from(
                record,
                match input {
                    Some(given) => Some(given.clone()),
                    None => None,
                },
            ) {
                Ok(line) => {
                    line_errors.push(Arc::new(line));
                    assert(shared_line_models(line_errors@) =~= lines.push(line@));
                },
                Err(e) => {
                    proof {
                        lemma_partition_fails(items, (i + 1) as nat, errors.len() as nat);
                    }
                    return Err(e);
                },
            },
        }
        i += 1;
    }
    Ok((line_errors, validation_errors))
}

/// A failure inside the machinery rather than in the input: it is handed
/// on as it is.
#[derive(Debug, PartialEq, Eq)]
pub struct InternalError {
    pub message: String,
}

/// How the validation of a value ended when it did not succeed.
#[derive(Debug, PartialEq, Eq)]
pub enum ValError {
    /// The leaf failures that were found.
    LineErrors(Vec<ValLineError>),
    /// A failure inside the machinery.
    InternalErr(InternalError),
    /// The mark that a value is to be left out. It has no place in a
    /// report.
    Omit,
}

/// What is raised in the end: the report, or a failure inside the
/// machinery.
#[derive(Debug, PartialEq, Eq)]
pub enum Raised {
    Validation(ValidationError),
    Internal(InternalError),
}

/// What raw leaf failures stand for, item by item.
pub open spec fn raw_models(errors: Seq<ValLineError>) -> Seq<LineErrorModel> {
    Seq::new(errors.len(), |i: int| errors[i]@)
}

/// The path under which the failures of a nested validation are put: the
/// one outer segment, or nothing.
pub open spec fn outer_path(outer: Option<LocItem>) -> Seq<LocItemModel> {
    match outer {
        Some(item) => seq![item@],
        None => Seq::empty(),
    }
}

/// The words of the failure that stands for a left-out value which
/// reached a report.
pub open spec fn omit_text() -> Seq<char> {
    "Uncaught Omit error, please check your usage of `default` validators."@
}

impl ValidationError {
    /// The aggregate of the given title that `errors` stand for, in the
    /// mode named by `error_mode` and with the prefix that `loc_prefix`
    /// stands for; with no name the mode is `Python`, with no prefix the
    /// path is empty. The items are looked at first, then the mode, then
    /// the prefix; the first that is not well formed decides the failure.
    pub fn from_items(
        message: String,
        errors: &Vec<ErrorItem>,
        error_mode: Option<&str>,
        loc_prefix: Option<&Data>,
    ) -> (r: Result<ValidationError, InputError>)
        ensures
            match partition(item_models(errors@), errors.len() as nat) {
                Err(e) => r == Err::<ValidationError, InputError>(e),
                Ok((lines, nodes)) => match ErrorMode::parse(
                    match error_mode {
                        Some(n) => Some(n@),
                        None => None,
                    },
                ) {
                    Err(e) => r == Err::<ValidationError, InputError>(e),
                    Ok(mode) => match loc_prefix {
                        None => r matches Ok(node) && node@ == (ValidationErrorModel {
                            line_errors: lines,
                            validation_errors: nodes,
                            error_mode: mode,
                            title: message@,
                            loc_prefix: Seq::empty(),
                        }),
                        Some(raw) => match parse_location(raw@) {
                            Err(e) => r == Err::<ValidationError, InputError>(e),
                            Ok(prefix) => r matches Ok(node) && node@ == (ValidationErrorModel {
                                line_errors: lines,
                                validation_errors: nodes,
                                error_mode: mode,
                                title: message@,
                                loc_prefix: prefix,
                            }),
                        },
                    },
                },
            },
    {
        let (line_errors, validation_errors) = match partition_errors(errors) {
            Ok(parts) => parts,
            Err(e) => {
                return Err(e);
            },
        };
        let mode = match ErrorMode::try_from(error_mode) {
            Ok(mode) => mode,
            Err(e) => {
                return Err(e);
            },
        };
        let prefix = match loc_prefix {
            None => Location::empty(),
            Some(raw) => match Location::try_from(raw) {
                Ok(prefix) => prefix,
                Err(e) => {
                    return Err(e);
                },
            },
        };
        let node = ValidationError {
            line_errors,
            validation_errors,
            error_mode: mode,
            message,
            loc_prefix: prefix,
        };
        proof {
            lemma_children_model(node);
        }
        Ok(node)
    }

    /// A new aggregate that holds what `errors` stand for and, behind
    /// that, what this aggregate holds: leaf failures behind leaf
    /// failures, nested aggregates behind nested aggregates. Title, mode
    /// and prefix are those of this aggregate, which is left as it is.
    pub fn derive(&self, errors: &Vec<ErrorItem>) -> (r: Result<ValidationError, InputError>)
        ensures
            match partition(item_models(errors@), errors.len() as nat) {
                Err(e) => r == Err::<ValidationError, InputError>(e),
                Ok((lines, nodes)) => r matches Ok(node) && node@ == self@.derived(lines, nodes),
            },
    {
        let (mut line_errors, mut validation_errors) = match partition_errors(errors) {
            Ok(parts) => parts,
            Err(e) => {
                return Err(e);
            },
        };
        let ghost lines = shared_line_models(line_errors@);
        let ghost nodes = shared_models(validation_errors@);
        proof {
            lemma_children_model(*self);
        }
        let mut i: usize = 0;
        while i < self.line_errors.len()
            invariant
                i <= self.line_errors.len(),
                shared_line_models(line_errors@) == lines + shared_line_models(
                    self.line_errors@,
                ).take(i as int),
            decreases self.line_errors.len() - i,
        {
            let ghost before = shared_line_models(line_errors@);
            line_errors.push(share(&self.line_errors[i]));
            assert(shared_line_models(line_errors@) =~= before.push((*self.line_errors[i as int])@));
            assert(shared_line_models(line_errors@) =~= lines + shared_line_models(
                self.line_errors@,
            ).take(i + 1));
            i += 1;
        }
        let mut k: usize = 0;
        while k < self.validation_errors.len()
            invariant
                k <= self.validation_errors.len(),
                shared_models(validation_errors@) == nodes + shared_models(
                    self.validation_errors@,
                ).take(k as int),
            decreases self.validation_errors.len() - k,
        {
            let ghost before = shared_models(validation_errors@);
            validation_errors.push(share(&self.validation_errors[k]));
            assert(shared_models(validation_errors@) =~= before.push(
                (*self.validation_errors[k as int]).model(),
            ));
            assert(shared_models(validation_errors@) =~= nodes + shared_models(
                self.validation_errors@,
            ).take(k + 1));
            k += 1;
        }
        let node = Self::new_with_val_errors(
            line_errors,
            validation_errors,
            self.message.clone(),
            self.error_mode,
            self.loc_prefix.clone(),
        );
        proof {
            lemma_children_model(node);
            assert(shared_line_models(self.line_errors@).take(self.line_errors.len() as int)
                =~= shared_line_models(self.line_errors@));
            assert(shared_models(self.validation_errors@).take(
                self.validation_errors.len() as int,
            ) =~= shared_models(self.validation_errors@));
        }
        Ok(node)
    }

    /// The failure that stands for a left-out value which reached a
    /// report.
    pub fn omit_error() -> (r: InternalError)
        ensures
            r.message@ == omit_text(),
    {
        InternalError {
            message: String::from_str(
                "Uncaught Omit error, please check your usage of `default` validators.",
            ),
        }
    }

    /// What is raised for the outcome `error` of a validation: for leaf
    /// failures the report of them under the given title and mode, each
    /// put under `outer_location` if there is one; a failure inside the
    /// machinery as it is; and for the mark of a left-out value the
    /// failure that says so.
    pub fn from_val_error(
        message: String,
        error_mode: ErrorMode,
        error: ValError,
        outer_location: Option<LocItem>,
    ) -> (r: Raised)
        ensures
            match error {
                ValError::LineErrors(raw_errors) => r matches Raised::Validation(node) && node@
                    == (ValidationErrorModel {
                    line_errors: prefixed(raw_models(raw_errors@), outer_path(outer_location)),
                    validation_errors: Seq::empty(),
                    error_mode,
                    title: message@,
                    loc_prefix: Seq::empty(),
                }),
                ValError::InternalErr(err) => r == Raised::Internal(err),
                ValError::Omit => r matches Raised::Internal(err) && err.message@ == omit_text(),
            },
    {
        match error {
            ValError::LineErrors(raw_errors) => {
                let ghost wanted = prefixed(raw_models(raw_errors@), outer_path(outer_location));
                let mut line_errors: Vec<PyLineError> = Vec::new();
                for raw in iter: raw_errors
                    invariant
                        iter.seq() == raw_errors@,
                        wanted == prefixed(raw_models(iter.seq()), outer_path(outer_location)),
                        line_errors.len() == iter.index(),
                        forall|j: int| 0 <= j < line_errors.len() ==> line_errors[j]@ == wanted[j],
                {
                    let ghost at = iter.index();
                    assert(raw@ == raw_models(raw_errors@)[at]);
                    let line = match &outer_location {
                        Some(outer) => raw.with_outer_location(outer.clone()).into_line_error(),
                        None => {
                            assert(raw@.with_prefix(Seq::empty()).location =~= raw@.location);
                            raw.into_line_error()
                        },
                    };
                    assert(line@ == wanted[at]);
                    line_errors.push(line);
                }
                assert(line_models(line_errors@) =~= wanted);
                let node = Self::new(line_errors, message, error_mode);
                assert(node@.validation_errors =~= Seq::empty());
                assert(node@.loc_prefix =~= Seq::empty());
                Raised::Validation(node)
            },
            ValError::InternalErr(err) => Raised::Internal(err),
            ValError::Omit => Raised::Internal(Self::omit_error()),
        }
    }

    /// The leaf failures of the tree, flattened, as the outcome of a
    /// validation.
    pub fn into_val_error(self) -> (r: ValError)
        ensures
            r matches ValError::LineErrors(raw_errors) && raw_models(raw_errors@)
                == self@.flatten(),
    {
        let flat = self.flatten_errors();
        let ghost wanted = line_models(flat@);
        let mut raw_errors: Vec<ValLineError> = Vec::new();
        for line in iter: flat
            invariant
                iter.seq() == flat@,
                wanted == line_models(iter.seq()),
                raw_errors.len() == iter.index(),
                forall|j: int| 0 <= j < raw_errors.len() ==> raw_errors[j]@ == wanted[j],
        {
            raw_errors.push(line.into_val_line_error());
        }
        assert(raw_models(raw_errors@) =~= wanted);
        ValError::LineErrors(raw_errors)
    }
}

} // verus!
