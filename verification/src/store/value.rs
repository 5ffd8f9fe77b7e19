//! The values a column can hold, and rows of them.

use crate::common::types::{clone_texts, same_texts, texts, Timestamp, Timeuuid};
use vstd::prelude::*;

verus! {

/// The type of a column.
#[derive(Debug, Clone, Copy, PartialEq, Eq, Structural)]
pub enum ColumnType {
    Timeuuid,
    Timestamp,
    Text,
    TextList,
}

/// A value bound to a statement or read from a row.
#[derive(Debug, Clone, PartialEq, Eq)]
pub enum CqlValue {
    Null,
    Timeuuid(Timeuuid),
    Timestamp(Timestamp),
    Text(String),
    TextList(Vec<String>),
}

/// What a [`CqlValue`] holds, as mathematics.
pub enum CqlValueView {
    Null,
    Timeuuid(u128),
    Timestamp(i64),
    Text(Seq<char>),
    TextList(Seq<Seq<char>>),
}

impl View for CqlValue {
    type V = CqlValueView;

    open spec fn view(&self) -> CqlValueView {
        match self {
            CqlValue::Null => CqlValueView::Null,
            CqlValue::Timeuuid(id) => CqlValueView::Timeuuid(id.0),
            CqlValue::Timestamp(at) => CqlValueView::Timestamp(at.0),
            CqlValue::Text(text) => CqlValueView::Text(text@),
            CqlValue::TextList(list) => CqlValueView::TextList(texts(list@)),
        }
    }
}

impl CqlValueView {
    /// Whether the value may stand in a column of the given type. A null
    /// stands for an absent value and fits every type.
    pub open spec fn fits(self, kind: ColumnType) -> bool {
        match self {
            CqlValueView::Null => true,
            CqlValueView::Timeuuid(_) => kind == ColumnType::Timeuuid,
            CqlValueView::Timestamp(_) => kind == ColumnType::Timestamp,
            CqlValueView::Text(_) => kind == ColumnType::Text,
            CqlValueView::TextList(_) => kind == ColumnType::TextList,
        }
    }
}

impl CqlValueView {
    /// The identifier a cell holds.
    pub open spec fn timeuuid(self) -> Option<u128> {
        match self {
            CqlValueView::Timeuuid(id) => Some(id),
            _ => None,
        }
    }

    /// The point in time a cell holds.
    pub open spec fn timestamp(self) -> Option<i64> {
        match self {
            CqlValueView::Timestamp(at) => Some(at),
            _ => None,
        }
    }

    /// The text a cell holds.
    pub open spec fn text(self) -> Option<Seq<char>> {
        match self {
            CqlValueView::Text(text) => Some(text),
            _ => None,
        }
    }

    /// The text a cell holds, or none where the cell is null.
    pub open spec fn optional_text(self) -> Option<Option<Seq<char>>> {
        match self {
            CqlValueView::Text(text) => Some(Some(text)),
            CqlValueView::Null => Some(None),
            _ => None,
        }
    }

    /// The list a cell holds; a null cell holds the empty list.
    pub open spec fn text_list(self) -> Option<Seq<Seq<char>>> {
        match self {
            CqlValueView::TextList(list) => Some(list),
            CqlValueView::Null => Some(Seq::empty()),
            _ => None,
        }
    }

    /// The cell for an optional text.
    pub open spec fn of_optional_text(text: Option<Seq<char>>) -> CqlValueView {
        match text {
            Some(text) => CqlValueView::Text(text),
            None => CqlValueView::Null,
        }
    }
}

/// The view of an optional string.
pub open spec fn optional_text(text: Option<String>) -> Option<Seq<char>> {
    match text {
        Some(text) => Some(text@),
        None => None,
    }
}

/// A copy of an optional string.
pub fn clone_optional_text(text: &Option<String>) -> (copy: Option<String>)
    ensures
        optional_text(copy) == optional_text(*text),
{
    match text {
        Some(text) => Some(text.clone()),
        None => None,
    }
}

impl CqlValue {
    /// The identifier the cell holds.
    pub fn as_timeuuid(&self) -> (r: Option<Timeuuid>)
        ensures
            match r {
                Some(id) => self@.timeuuid() == Some(id.0),
                None => self@.timeuuid() is None,
            },
    {
        match self {
            CqlValue::Timeuuid(id) => Some(*id),
            _ => None,
        }
    }

    /// The point in time the cell holds.
    pub fn as_timestamp(&self) -> (r: Option<Timestamp>)
        ensures
            match r {
                Some(at) => self@.timestamp() == Some(at.0),
                None => self@.timestamp() is None,
            },
    {
        match self {
            CqlValue::Timestamp(at) => Some(*at),
            _ => None,
        }
    }

    /// The text the cell holds.
    pub fn as_text(&self) -> (r: Option<String>)
        ensures
            match r {
                Some(text) => self@.text() == Some(text@),
                None => self@.text() is None,
            },
    {
        match self {
            CqlValue::Text(text) => Some(text.clone()),
            _ => None,
        }
    }

    /// The text the cell holds, or none where the cell is null.
    pub fn as_optional_text(&self) -> (r: Option<Option<String>>)
        ensures
            match r {
                Some(text) => self@.optional_text() == Some(optional_text(text)),
                None => self@.optional_text() is None,
            },
    {
        match self {
            CqlValue::Text(text) => Some(Some(text.clone())),
            CqlValue::Null => Some(None),
            _ => None,
        }
    }

    /// The list the cell holds; a null cell holds the empty list.
    pub fn as_text_list(&self) -> (r: Option<Vec<String>>)
        ensures
            match r {
                Some(list) => self@.text_list() == Some(texts(list@)),
                None => self@.text_list() is None,
            },
    {
        match self {
            CqlValue::TextList(list) => Some(clone_texts(list)),
            CqlValue::Null => {
                let list: Vec<String> = Vec::new();
                assert(texts(list@) =~= Seq::<Seq<char>>::empty());
                Some(list)
            },
            _ => None,
        }
    }

    /// The cell for an optional text.
    pub fn from_optional_text(text: &Option<String>) -> (cell: CqlValue)
        ensures
            cell@ == CqlValueView::of_optional_text(optional_text(*text)),
    {
        match text {
            Some(text) => CqlValue::Text(text.clone()),
            None => CqlValue::Null,
        }
    }
}

impl CqlValue {
    /// A copy of the value.
    pub fn duplicate(&self) -> (copy: CqlValue)
        ensures
            copy@ == self@,
    {
        match self {
            CqlValue::Null => CqlValue::Null,
            CqlValue::Timeuuid(id) => CqlValue::Timeuuid(*id),
            CqlValue::Timestamp(at) => CqlValue::Timestamp(*at),
            CqlValue::Text(text) => CqlValue::Text(text.clone()),
            CqlValue::TextList(list) => CqlValue::TextList(clone_texts(list)),
        }
    }

    /// Whether two values hold the same thing.
    pub fn same(&self, other: &CqlValue) -> (same: bool)
        ensures
            same == (self@ == other@),
    {
        match (self, other) {
            (CqlValue::Null, CqlValue::Null) => true,
            (CqlValue::Timeuuid(a), CqlValue::Timeuuid(b)) => a.0 == b.0,
            (CqlValue::Timestamp(a), CqlValue::Timestamp(b)) => a.0 == b.0,
            (CqlValue::Text(a), CqlValue::Text(b)) => *a == *b,
            (CqlValue::TextList(a), CqlValue::TextList(b)) => same_texts(a, b),
            _ => false,
        }
    }

    /// Whether the value may stand in a column of the given type.
    pub fn fits(&self, kind: ColumnType) -> (fits: bool)
        ensures
            fits == self@.fits(kind),
    {
        match self {
            CqlValue::Null => true,
            CqlValue::Timeuuid(_) => kind == ColumnType::Timeuuid,
            CqlValue::Timestamp(_) => kind == ColumnType::Timestamp,
            CqlValue::Text(_) => kind == ColumnType::Text,
            CqlValue::TextList(_) => kind == ColumnType::TextList,
        }
    }
}

/// The values of a sequence of cells, in order.
pub open spec fn cells(values: Seq<CqlValue>) -> Seq<CqlValueView> {
    Seq::new(values.len(), |i: int| values[i]@)
}

/// One row of a table, or the values bound to a key: a value per column, in
/// the order the table's schema gives its columns.
#[derive(Debug, Clone, PartialEq, Eq)]
pub struct Row {
    pub values: Vec<CqlValue>,
}

impl View for Row {
    type V = Seq<CqlValueView>;

    open spec fn view(&self) -> Seq<CqlValueView> {
        cells(self.values@)
    }
}

/// The rows a sequence of [`Row`] values holds, in order.
pub open spec fn rows(list: Seq<Row>) -> Seq<Seq<CqlValueView>> {
    Seq::new(list.len(), |i: int| list[i]@)
}

impl Row {
    /// A copy of the row.
    pub fn duplicate(&self) -> (copy: Row)
        ensures
            copy@ == self@,
    {
        let mut values: Vec<CqlValue> = Vec::new();
        let mut i: usize = 0;
        while i < self.values.len()
            invariant
                i <= self.values.len(),
                values.len() == i,
                forall|j: int| 0 <= j < i ==> values[j]@ == self.values[j]@,
            decreases self.values.len() - i,
        {
            values.push(self.values[i].duplicate());
            i += 1;
        }
        let copy = Row { values };
        assert(copy@ =~= self@);
        copy
    }

    /// Whether the row starts with the given values.
    pub fn starts_with(&self, prefix: &Row) -> (r: bool)
        ensures
            r == starts_with(self@, prefix@),
    {
        if prefix.values.len() > self.values.len() {
            return false;
        }
        let mut i: usize = 0;
        while i < prefix.values.len()
            invariant
                i <= prefix.values.len(),
                prefix.values.len() <= self.values.len(),
                forall|j: int| 0 <= j < i ==> self.values[j]@ == prefix.values[j]@,
            decreases prefix.values.len() - i,
        {
            if !self.values[i].same(&prefix.values[i]) {
                assert(self@.take(prefix@.len() as int)[i as int] != prefix@[i as int]);
                return false;
            }
            i += 1;
        }
        assert(self@.take(prefix@.len() as int) =~= prefix@);
        true
    }
}

/// Whether a row starts with the given values.
pub open spec fn starts_with(row: Seq<CqlValueView>, prefix: Seq<CqlValueView>) -> bool {
    prefix.len() <= row.len() && row.take(prefix.len() as int) == prefix
}

/// A copy of a list of rows.
pub fn clone_rows(list: &Vec<Row>) -> (copy: Vec<Row>)
    ensures
        rows(copy@) == rows(list@),
{
    let mut copy: Vec<Row> = Vec::new();
    let mut i: usize = 0;
    while i < list.len()
        invariant
            i <= list.len(),
            copy.len() == i,
            forall|j: int| 0 <= j < i ==> copy[j]@ == list[j]@,
        decreases list.len() - i,
    {
        copy.push(list[i].duplicate());
        i += 1;
    }
    assert(rows(copy@) =~= rows(list@));
    copy
}

} // verus!
