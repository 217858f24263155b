//! The values that a failure refers to: the offending input, the context of
//! an error kind, and the records that the report hands out.
use vstd::prelude::*;
use vstd::string::*;
use crate::text::str_eq;

verus! {

/// A value of the validated input, or a value of a record: nothing, a truth
/// value, an integer, a string, a list, a mapping from names to values in
/// the order in which they were entered, or a custom error, which is a
/// value of its own kind and no mapping.
///
/// A mapping is meant to hold each name once. Where a name stands twice,
/// lookups find the first entry.
#[derive(Debug, PartialEq, Eq)]
pub enum Data {
    Null,
    Bool(bool),
    Int(i64),
    Str(String),
    List(Vec<Data>),
    Dict(Vec<(String, Data)>),
    Custom { error_type: String, message: String, context: Option<Vec<(String, Data)>> },
}

/// What a [`Data`] stands for.
pub enum DataModel {
    Null,
    Bool(bool),
    Int(int),
    Str(Seq<char>),
    List(Seq<DataModel>),
    Dict(Seq<(Seq<char>, DataModel)>),
    Custom { error_type: Seq<char>, message: Seq<char>, context: Option<Seq<(Seq<char>, DataModel)>> },
}

impl Data {
    /// What the value stands for.
    pub open spec fn model(self) -> DataModel
        decreases self,
    {
        match self {
            Data::Null => DataModel::Null,
            Data::Bool(b) => DataModel::Bool(b),
            Data::Int(i) => DataModel::Int(i as int),
            Data::Str(s) => DataModel::Str(s@),
            Data::List(items) => DataModel::List(
                Seq::new(
                    items.len() as nat,
                    |i: int|
                        if 0 <= i < items.len() {
                            items[i].model()
                        } else {
                            DataModel::Null
                        },
                ),
            ),
            Data::Dict(fields) => DataModel::Dict(
                Seq::new(
                    fields.len() as nat,
                    |i: int|
                        if 0 <= i < fields.len() {
                            (fields[i].0@, fields[i].1.model())
                        } else {
                            (Seq::empty(), DataModel::Null)
                        },
                ),
            ),
            Data::Custom { error_type, message, context } => DataModel::Custom {
                error_type: error_type@,
                message: message@,
                context: match context {
                    Some(fields) => Some(
                        Seq::new(
                            fields.len() as nat,
                            |i: int|
                                if 0 <= i < fields.len() {
                                    (fields[i].0@, fields[i].1.model())
                                } else {
                                    (Seq::empty(), DataModel::Null)
                                },
                        ),
                    ),
                    None => None,
                },
            },
        }
    }
}

impl View for Data {
    type V = DataModel;

    open spec fn view(&self) -> DataModel {
        self.model()
    }
}

/// What a sequence of values stands for, item by item.
pub open spec fn items_model(items: Seq<Data>) -> Seq<DataModel> {
    Seq::new(items.len(), |i: int| items[i]@)
}

/// What a sequence of named values stands for, entry by entry.
pub open spec fn fields_model(fields: Seq<(String, Data)>) -> Seq<(Seq<char>, DataModel)> {
    Seq::new(fields.len(), |i: int| (fields[i].0@, fields[i].1@))
}

/// A list stands for the list of what its items stand for.
pub proof fn lemma_list_model(items: Vec<Data>)
    ensures
        Data::List(items)@ == DataModel::List(items_model(items@)),
{
    assert(Data::List(items)@->List_0 =~= items_model(items@));
}

/// A mapping stands for the sequence of what its entries stand for.
pub proof fn lemma_dict_model(fields: Vec<(String, Data)>)
    ensures
        Data::Dict(fields)@ == DataModel::Dict(fields_model(fields@)),
{
    assert(Data::Dict(fields)@->Dict_0 =~= fields_model(fields@));
}

/// A custom error stands for its type string, its message, and what the
/// entries of its context stand for.
pub proof fn lemma_custom_model(
    error_type: String,
    message: String,
    context: Option<Vec<(String, Data)>>,
)
    ensures
        (Data::Custom { error_type, message, context })@ == (DataModel::Custom {
            error_type: error_type@,
            message: message@,
            context: match context {
                Some(fields) => Some(fields_model(fields@)),
                None => None,
            },
        }),
{
    match context {
        Some(fields) => {
            assert((Data::Custom { error_type, message, context })@->Custom_context->0
                =~= fields_model(fields@));
        },
        None => {},
    }
}

/// The first value entered under `key`, if there is one.
pub open spec fn field_of(fields: Seq<(Seq<char>, DataModel)>, key: Seq<char>) -> Option<
    DataModel,
>
    decreases fields.len(),
{
    if fields.len() == 0 {
        None
    } else if fields[0].0 == key {
        Some(fields[0].1)
    } else {
        field_of(fields.drop_first(), key)
    }
}

/// Where the first entry under `key` stands, if there is one.
pub open spec fn index_of_field(fields: Seq<(Seq<char>, DataModel)>, key: Seq<char>) -> Option<
    int,
>
    decreases fields.len(),
{
    if fields.len() == 0 {
        None
    } else if fields[0].0 == key {
        Some(0)
    } else {
        match index_of_field(fields.drop_first(), key) {
            Some(i) => Some(i + 1),
            None => None,
        }
    }
}

/// `index_of_field` names the first entry under the key, and `field_of` is
/// the value found there.
pub proof fn lemma_index_of_field(fields: Seq<(Seq<char>, DataModel)>, key: Seq<char>)
    ensures
        match index_of_field(fields, key) {
            Some(i) => 0 <= i < fields.len() && fields[i].0 == key && field_of(fields, key)
                == Some(fields[i].1) && forall|j: int| 0 <= j < i ==> fields[j].0 != key,
            None => field_of(fields, key) is None && forall|j: int|
                0 <= j < fields.len() ==> fields[j].0 != key,
        },
    decreases fields.len(),
{
    if fields.len() == 0 {
    } else if fields[0].0 == key {
    } else {
        let rest = fields.drop_first();
        lemma_index_of_field(rest, key);
        match index_of_field(rest, key) {
            Some(i) => {
                assert(rest[i] == fields[i + 1]);
                assert forall|j: int| 0 <= j < i + 1 implies fields[j].0 != key by {
                    if j > 0 {
                        assert(rest[j - 1] == fields[j]);
                    }
                }
            },
            None => {
                assert forall|j: int| 0 <= j < fields.len() implies fields[j].0 != key by {
                    if j > 0 {
                        assert(rest[j - 1] == fields[j]);
                    }
                }
            },
        }
    }
}

/// If no entry before `i` stands under `key` and the entry at `i` does, the
/// search ends at `i`.
pub proof fn lemma_first_field(fields: Seq<(Seq<char>, DataModel)>, key: Seq<char>, i: int)
    requires
        0 <= i <= fields.len(),
        forall|j: int| 0 <= j < i ==> fields[j].0 != key,
    ensures
        i < fields.len() && fields[i].0 == key ==> index_of_field(fields, key) == Some(i)
            && field_of(fields, key) == Some(fields[i].1),
        i == fields.len() ==> index_of_field(fields, key) is None && field_of(fields, key)
            is None,
{
    lemma_index_of_field(fields, key);
}

impl DataModel {
    /// Whether the value holds no custom error, at any depth. Only such a
    /// value has a form in JSON.
    pub open spec fn is_plain(self) -> bool
        decreases self,
    {
        match self {
            DataModel::List(items) => Self::all_plain(items, items.len()),
            DataModel::Dict(fields) => Self::all_fields_plain(fields, fields.len()),
            DataModel::Custom { .. } => false,
            _ => true,
        }
    }

    /// Whether the first `n` items hold no custom error.
    pub open spec fn all_plain(items: Seq<DataModel>, n: nat) -> bool
        decreases items, n,
    {
        if n == 0 || n > items.len() {
            true
        } else {
            Self::all_plain(items, (n - 1) as nat) && items[n - 1].is_plain()
        }
    }

    /// Whether the values of the first `n` entries hold no custom error.
    pub open spec fn all_fields_plain(fields: Seq<(Seq<char>, DataModel)>, n: nat) -> bool
        decreases fields, n,
    {
        if n == 0 || n > fields.len() {
            true
        } else {
            Self::all_fields_plain(fields, (n - 1) as nat) && fields[n - 1].1.is_plain()
        }
    }
}

/// Where a run of items holds a custom error, every longer run does.
pub proof fn lemma_not_all_plain(items: Seq<DataModel>, n: nat, m: nat)
    requires
        n <= m <= items.len(),
        !DataModel::all_plain(items, n),
    ensures
        !DataModel::all_plain(items, m),
    decreases m,
{
    if n < m {
        lemma_not_all_plain(items, n, (m - 1) as nat);
    }
}

/// Where a run of entries holds a custom error, every longer run does.
pub proof fn lemma_not_all_fields_plain(fields: Seq<(Seq<char>, DataModel)>, n: nat, m: nat)
    requires
        n <= m <= fields.len(),
        !DataModel::all_fields_plain(fields, n),
    ensures
        !DataModel::all_fields_plain(fields, m),
    decreases m,
{
    if n < m {
        lemma_not_all_fields_plain(fields, n, (m - 1) as nat);
    }
}

impl Clone for Data {
    /// A copy that stands for the same value.
    #[verifier::loop_isolation(false)]
    fn clone(&self) -> (r: Self)
        ensures
            r@ == self@,
        decreases self,
    {
        match self {
            Data::Null => Data::Null,
            Data::Bool(b) => Data::Bool(*b),
            Data::Int(i) => Data::Int(*i),
            Data::Str(s) => Data::Str(s.clone()),
            Data::List(items) => {
                let mut out: Vec<Data> = Vec::new();
                let mut i: usize = 0;
                while i < items.len()
                    invariant
                        i <= items.len(),
                        out.len() == i,
                        forall|j: int| 0 <= j < i ==> out[j]@ == items[j]@,
                    decreases items.len() - i,
                {
                    out.push(items[i].clone());
                    i += 1;
                }
                let r = Data::List(out);
                assert(r@->List_0 =~= self@->List_0);
                r
            },
            Data::Dict(fields) => {
                let mut out: Vec<(String, Data)> = Vec::new();
                let mut i: usize = 0;
                while i < fields.len()
                    invariant
                        i <= fields.len(),
                        out.len() == i,
                        forall|j: int|
                            0 <= j < i ==> out[j].0@ == fields[j].0@ && out[j].1@ == fields[j].1@,
                    decreases fields.len() - i,
                {
                    out.push((fields[i].0.clone(), fields[i].1.clone()));
                    i += 1;
                }
                let r = Data::Dict(out);
                assert(r@->Dict_0 =~= self@->Dict_0);
                r
            },
            Data::Custom { error_type, message, context } => {
                let copied = match context {
                    Some(fields) => {
                        let mut out: Vec<(String, Data)> = Vec::new();
                        let mut i: usize = 0;
                        while i < fields.len()
                            invariant
                                i <= fields.len(),
                                out.len() == i,
                                forall|j: int|
                                    0 <= j < i ==> out[j].0@ == fields[j].0@ && out[j].1@
                                        == fields[j].1@,
                            decreases fields.len() - i,
                        {
                            out.push((fields[i].0.clone(), fields[i].1.clone()));
                            i += 1;
                        }
                        assert(fields_model(out@) =~= fields_model(fields@));
                        Some(out)
                    },
                    None => None,
                };
                proof {
                    lemma_custom_model(*error_type, *message, *context);
                }
                let r = Data::Custom {
                    error_type: error_type.clone(),
                    message: message.clone(),
                    context: copied,
                };
                proof {
                    lemma_custom_model(r->Custom_error_type, r->Custom_message, r->Custom_context);
                }
                r
            },
        }
    }
}

impl Data {
    /// Whether the value holds no custom error, at any depth.
    #[verifier::loop_isolation(false)]
    pub fn is_plain(&self) -> (r: bool)
        ensures
            r == self@.is_plain(),
        decreases self,
    {
        match self {
            Data::List(items) => {
                proof {
                    lemma_list_model(*items);
                }
                let ghost models = items_model(items@);
                let mut i: usize = 0;
                while i < items.len()
                    invariant
                        i <= items.len(),
                        DataModel::all_plain(models, i as nat),
                    decreases items.len() - i,
                {
                    assert(models[i as int] == items[i as int]@);
                    if !items[i].is_plain() {
                        proof {
                            lemma_not_all_plain(models, (i + 1) as nat, models.len());
                        }
                        return false;
                    }
                    i += 1;
                }
                true
            },
            Data::Dict(fields) => {
                proof {
                    lemma_dict_model(*fields);
                }
                let ghost models = fields_model(fields@);
                let mut i: usize = 0;
                while i < fields.len()
                    invariant
                        i <= fields.len(),
                        DataModel::all_fields_plain(models, i as nat),
                    decreases fields.len() - i,
                {
                    assert(models[i as int] == (fields[i as int].0@, fields[i as int].1@));
                    if !fields[i].1.is_plain() {
                        proof {
                            lemma_not_all_fields_plain(models, (i + 1) as nat, models.len());
                        }
                        return false;
                    }
                    i += 1;
                }
                true
            },
            Data::Custom { .. } => false,
            _ => true,
        }
    }
}

/// The offending input as the host describes it: the value itself, the
/// text by which the host shows it, and the name of its type where the
/// host can tell.
#[derive(Debug, PartialEq, Eq)]
pub struct InputValue {
    pub value: Data,
    pub repr: String,
    pub type_label: Option<String>,
}

/// What an [`InputValue`] stands for.
pub struct InputValueModel {
    pub value: DataModel,
    pub repr: Seq<char>,
    pub type_label: Option<Seq<char>>,
}

impl View for InputValue {
    type V = InputValueModel;

    open spec fn view(&self) -> InputValueModel {
        InputValueModel {
            value: self.value@,
            repr: self.repr@,
            type_label: match self.type_label {
                Some(name) => Some(name@),
                None => None,
            },
        }
    }
}

impl Clone for InputValue {
    fn clone(&self) -> (r: Self)
        ensures
            r@ == self@,
    {
        InputValue {
            value: self.value.clone(),
            repr: self.repr.clone(),
            type_label: match &self.type_label {
                Some(name) => Some(name.clone()),
                None => None,
            },
        }
    }
}

impl InputValueModel {
    /// The input that stands for nothing.
    pub open spec fn none() -> InputValueModel {
        InputValueModel {
            value: DataModel::Null,
            repr: "None"@,
            type_label: Some("NoneType"@),
        }
    }
}

impl InputValue {
    /// The input of the given value, text and type name.
    pub fn new(value: Data, repr: String, type_label: Option<String>) -> (r: InputValue)
        ensures
            r.value == value,
            r.repr == repr,
            r.type_label == type_label,
    {
        InputValue { value, repr, type_label }
    }

    /// The input that stands for nothing, where a record names none.
    pub fn none() -> (r: InputValue)
        ensures
            r@ == InputValueModel::none(),
    {
        InputValue {
            value: Data::Null,
            repr: String::from_str("None"),
            type_label: Some(String::from_str("NoneType")),
        }
    }
}

/// The first value entered under `key` in `fields`, if there is one.
pub fn get_field<'a>(fields: &'a Vec<(String, Data)>, key: &str) -> (r: Option<&'a Data>)
    ensures
        match r {
            Some(v) => field_of(fields_model(fields@), key@) == Some(v@),
            None => field_of(fields_model(fields@), key@) is None,
        },
{
    let mut i: usize = 0;
    while i < fields.len()
        invariant
            i <= fields.len(),
            forall|j: int| 0 <= j < i ==> fields_model(fields@)[j].0 != key@,
        decreases fields.len() - i,
    {
        if str_eq(fields[i].0.as_str(), key) {
            proof {
                lemma_first_field(fields_model(fields@), key@, i as int);
            }
            return Some(&fields[i].1);
        }
        i += 1;
    }
    proof {
        lemma_first_field(fields_model(fields@), key@, i as int);
    }
    None
}

} // verus!
