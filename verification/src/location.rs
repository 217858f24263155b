//! Where a failure occurred: a path of keys and indices into the input.
use vstd::prelude::*;
use vstd::string::*;
use crate::data::{Data, DataModel};
use crate::failure::{InputError, Mismatch};
use crate::text::{int_text, push_int};

verus! {

/// One segment of a path: a key of a mapping or an index of a list.
#[derive(Debug, PartialEq, Eq)]
pub enum LocItem {
    Key(String),
    Index(i64),
}

/// What a [`LocItem`] stands for.
pub enum LocItemModel {
    Key(Seq<char>),
    Index(int),
}

impl View for LocItem {
    type V = LocItemModel;

    open spec fn view(&self) -> LocItemModel {
        match self {
            LocItem::Key(s) => LocItemModel::Key(s@),
            LocItem::Index(i) => LocItemModel::Index(*i as int),
        }
    }
}

impl Clone for LocItem {
    fn clone(&self) -> (r: Self)
        ensures
            r@ == self@,
    {
        match self {
            LocItem::Key(s) => LocItem::Key(s.clone()),
            LocItem::Index(i) => LocItem::Index(*i),
        }
    }
}

impl LocItemModel {
    /// The segment as it is printed: the key itself, or the decimal form
    /// of the index.
    pub open spec fn text(self) -> Seq<char> {
        match self {
            LocItemModel::Key(s) => s,
            LocItemModel::Index(i) => int_text(i),
        }
    }

    /// The segment as a value of a record.
    pub open spec fn record(self) -> DataModel {
        match self {
            LocItemModel::Key(s) => DataModel::Str(s),
            LocItemModel::Index(i) => DataModel::Int(i),
        }
    }

    /// The segment that a value of a record stands for, if it is a string
    /// or an integer.
    pub open spec fn parse(raw: DataModel) -> Option<LocItemModel> {
        match raw {
            DataModel::Str(s) => Some(LocItemModel::Key(s)),
            DataModel::Int(i) => Some(LocItemModel::Index(i)),
            _ => None,
        }
    }
}

/// An ordered path of segments, outermost first. The empty path is the
/// place of the input as a whole.
#[derive(Debug, PartialEq, Eq)]
pub struct Location {
    pub items: Vec<LocItem>,
}

/// What a sequence of segments stands for, item by item.
pub open spec fn loc_items_model(items: Seq<LocItem>) -> Seq<LocItemModel> {
    Seq::new(items.len(), |i: int| items[i]@)
}

impl View for Location {
    type V = Seq<LocItemModel>;

    open spec fn view(&self) -> Seq<LocItemModel> {
        loc_items_model(self.items@)
    }
}

/// The printed form of the first `n` segments of a path, separated by dots.
pub open spec fn segments_text(path: Seq<LocItemModel>, n: nat) -> Seq<char>
    decreases n,
{
    if n == 0 || n > path.len() {
        Seq::empty()
    } else if n == 1 {
        path[0].text()
    } else {
        segments_text(path, (n - 1) as nat) + seq!['.'] + path[n - 1].text()
    }
}

/// The printed form of a path: nothing for the empty path, else the
/// segments from the outermost to the innermost, separated by dots, and
/// the end of the line.
pub open spec fn location_text(path: Seq<LocItemModel>) -> Seq<char> {
    if path.len() == 0 {
        Seq::empty()
    } else {
        segments_text(path, path.len()) + seq!['\n']
    }
}

/// The path as a value of a record: the list of its segments in order.
pub open spec fn location_record(path: Seq<LocItemModel>) -> DataModel {
    DataModel::List(Seq::new(path.len(), |i: int| path[i].record()))
}

/// Whether every item is a string or an integer.
pub open spec fn all_segments(items: Seq<DataModel>) -> bool {
    forall|i: int| 0 <= i < items.len() ==> (#[trigger] LocItemModel::parse(items[i])) is Some
}

/// The path that a raw value stands for: the value must be a list, and
/// each of its items a string or an integer.
pub open spec fn parse_location(raw: DataModel) -> Result<Seq<LocItemModel>, InputError> {
    match raw {
        DataModel::List(items) => if all_segments(items) {
            Ok(Seq::new(items.len(), |i: int| LocItemModel::parse(items[i])->0))
        } else {
            Err(InputError::TypeMismatch(Mismatch::LocationItem))
        },
        _ => Err(InputError::TypeMismatch(Mismatch::Location)),
    }
}

impl LocItem {
    /// The segment that `raw` stands for, if it is a string or an integer.
    pub fn try_from(raw: &Data) -> (r: Option<LocItem>)
        ensures
            match r {
                Some(item) => LocItemModel::parse(raw@) == Some(item@),
                None => LocItemModel::parse(raw@) is None,
            },
    {
        match raw {
            Data::Str(s) => Some(LocItem::Key(s.clone())),
            Data::Int(i) => Some(LocItem::Index(*i)),
            _ => None,
        }
    }

    /// The segment as a value of a record.
    pub fn to_record(&self) -> (r: Data)
        ensures
            r@ == self@.record(),
    {
        match self {
            LocItem::Key(s) => Data::Str(s.clone()),
            LocItem::Index(i) => Data::Int(*i),
        }
    }

    /// Appends the printed form of the segment to `out`.
    pub fn push_text(&self, out: &mut String)
        ensures
            final(out)@ == old(out)@ + self@.text(),
    {
        match self {
            LocItem::Key(s) => {
                out.append(s.as_str());
            },
            LocItem::Index(i) => {
                push_int(out, *i);
            },
        }
    }
}

impl Clone for Location {
    fn clone(&self) -> (r: Self)
        ensures
            r@ == self@,
    {
        let mut items: Vec<LocItem> = Vec::new();
        let mut i: usize = 0;
        while i < self.items.len()
            invariant
                i <= self.items.len(),
                items.len() == i,
                forall|j: int| 0 <= j < i ==> items[j]@ == self.items[j]@,
            decreases self.items.len() - i,
        {
            items.push(self.items[i].clone());
            i += 1;
        }
        let r = Location { items };
        assert(r@ =~= self@);
        r
    }
}

impl Location {
    /// The empty path.
    pub fn empty() -> (r: Location)
        ensures
            r@ == Seq::<LocItemModel>::empty(),
    {
        let r = Location { items: Vec::new() };
        assert(r@ =~= Seq::<LocItemModel>::empty());
        r
    }

    /// The path made of `items`, outermost first.
    pub fn new(items: Vec<LocItem>) -> (r: Location)
        ensures
            r@ == loc_items_model(items@),
    {
        Location { items }
    }

    /// The number of segments.
    pub fn len(&self) -> (r: usize)
        ensures
            r == self@.len(),
    {
        self.items.len()
    }

    /// The path that `raw` stands for. Fails where `raw` is not a list, and
    /// where one of its items is neither a string nor an integer.
    pub fn try_from(raw: &Data) -> (r: Result<Location, InputError>)
        ensures
            match r {
                Ok(location) => parse_location(raw@) == Ok::<Seq<LocItemModel>, InputError>(
                    location@,
                ),
                Err(e) => parse_location(raw@) == Err::<Seq<LocItemModel>, InputError>(e),
            },
    {
        match raw {
            Data::List(raw_items) => {
                let ghost models = raw@->List_0;
                let mut items: Vec<LocItem> = Vec::new();
                let mut i: usize = 0;
                while i < raw_items.len()
                    invariant
                        i <= raw_items.len(),
                        raw@ == DataModel::List(models),
                        models.len() == raw_items.len(),
                        forall|j: int| 0 <= j < raw_items.len() ==> models[j] == raw_items[j]@,
                        items.len() == i,
                        forall|j: int|
                            0 <= j < i ==> LocItemModel::parse(models[j]) == Some(items[j]@),
                    decreases raw_items.len() - i,
                {
                    match LocItem::try_from(&raw_items[i]) {
                        Some(item) => {
                            items.push(item);
                        },
                        None => {
                            assert(LocItemModel::parse(models[i as int]) is None);
                            return Err(InputError::TypeMismatch(Mismatch::LocationItem));
                        },
                    }
                    i += 1;
                }
                let location = Location { items };
                proof {
                    assert(all_segments(models));
                    assert(location@ =~= parse_location(raw@)->Ok_0);
                }
                Ok(location)
            },
            _ => Err(InputError::TypeMismatch(Mismatch::Location)),
        }
    }

    /// This path behind `prefix`: the segments of `prefix`, then those of
    /// this path. Neither of the two is changed.
    pub fn with_prefix(&self, prefix: &Location) -> (r: Location)
        ensures
            r@ == prefix@ + self@,
    {
        let mut items: Vec<LocItem> = Vec::new();
        let mut i: usize = 0;
        while i < prefix.items.len()
            invariant
                i <= prefix.items.len(),
                items.len() == i,
                forall|j: int| 0 <= j < i ==> items[j]@ == prefix.items[j]@,
            decreases prefix.items.len() - i,
        {
            items.push(prefix.items[i].clone());
            i += 1;
        }
        let mut k: usize = 0;
        while k < self.items.len()
            invariant
                k <= self.items.len(),
                items.len() == prefix.items.len() + k,
                forall|j: int| 0 <= j < prefix.items.len() ==> items[j]@ == prefix.items[j]@,
                forall|j: int| 0 <= j < k ==> items[prefix.items.len() + j]@ == self.items[j]@,
            decreases self.items.len() - k,
        {
            items.push(self.items[k].clone());
            k += 1;
        }
        let r = Location { items };
        assert(r@ =~= prefix@ + self@);
        r
    }

    /// This path behind the one segment `outer`.
    pub fn with_outer(&self, outer: LocItem) -> (r: Location)
        ensures
            r@ == seq![outer@] + self@,
    {
        let mut items: Vec<LocItem> = Vec::new();
        items.push(outer);
        let mut k: usize = 0;
        while k < self.items.len()
            invariant
                k <= self.items.len(),
                items.len() == 1 + k,
                items[0]@ == outer@,
                forall|j: int| 0 <= j < k ==> items[1 + j]@ == self.items[j]@,
            decreases self.items.len() - k,
        {
            items.push(self.items[k].clone());
            k += 1;
        }
        let r = Location { items };
        assert(r@ =~= seq![outer@] + self@);
        r
    }

    /// The path as a value of a record: the list of its segments in order.
    pub fn to_record(&self) -> (r: Data)
        ensures
            r@ == location_record(self@),
    {
        let mut out: Vec<Data> = Vec::new();
        let mut i: usize = 0;
        while i < self.items.len()
            invariant
                i <= self.items.len(),
                out.len() == i,
                forall|j: int| 0 <= j < i ==> out[j]@ == self.items[j]@.record(),
            decreases self.items.len() - i,
        {
            out.push(self.items[i].to_record());
            i += 1;
        }
        let r = Data::List(out);
        assert(r@->List_0 =~= location_record(self@)->List_0);
        r
    }

    /// Appends the printed form of the path to `out`.
    pub fn push_text(&self, out: &mut String)
        ensures
            final(out)@ == old(out)@ + location_text(self@),
    {
        let mut i: usize = 0;
        while i < self.items.len()
            invariant
                i <= self.items.len(),
                out@ == old(out)@ + segments_text(self@, i as nat),
            decreases self.items.len() - i,
        {
            if i > 0 {
                proof {
                    reveal_strlit(".");
                }
                out.append(".");
            }
            self.items[i].push_text(out);
            assert(out@ =~= old(out)@ + segments_text(self@, (i + 1) as nat));
            i += 1;
        }
        if self.items.len() > 0 {
            proof {
                reveal_strlit("\n");
            }
            out.append("\n");
        }
        assert(out@ =~= old(out)@ + location_text(self@));
    }
}

} // verus!
