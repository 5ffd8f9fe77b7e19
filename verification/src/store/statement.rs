//! The statements this layer submits to the store.
//!
//! A statement names its table by entity and addresses rows only through the
//! table's keys or an indexed column; nothing else can be written down.

use crate::common::types::{clone_texts, texts};
use crate::store::schema::{layout, EntityKind, SchemaRegistry};
use crate::store::value::{ColumnType, CqlValue, CqlValueView, Row};
use vstd::prelude::*;

verus! {

/// One statement.
#[derive(Debug, Clone, PartialEq, Eq)]
pub enum Statement {
    /// Create the entity's table unless it exists.
    CreateTable { kind: EntityKind },
    /// Create the secondary index on a column unless it exists.
    CreateIndex { kind: EntityKind, column: usize },
    /// Write a full row, replacing the row with the same key if there is one.
    Insert { kind: EntityKind, row: Row },
    /// Overwrite the full row with the given key, creating it if absent.
    Update { kind: EntityKind, row: Row },
    /// Read every row of one partition.
    SelectPartition { kind: EntityKind, key: Row },
    /// Read the row with the given partition and clustering key.
    SelectRow { kind: EntityKind, key: Row },
    /// Read the rows whose indexed column equals a value.
    SelectByIndex { kind: EntityKind, column: usize, value: CqlValue },
    /// Append values to a list column of the row with the given key.
    ListAppend { kind: EntityKind, key: Row, column: usize, values: Vec<String> },
    /// Remove every occurrence of the values from a list column of the row
    /// with the given key.
    ListRemove { kind: EntityKind, key: Row, column: usize, values: Vec<String> },
}

/// A [`Statement`] as mathematics.
pub enum StatementView {
    CreateTable { kind: EntityKind },
    CreateIndex { kind: EntityKind, column: int },
    Insert { kind: EntityKind, row: Seq<CqlValueView> },
    Update { kind: EntityKind, row: Seq<CqlValueView> },
    SelectPartition { kind: EntityKind, key: Seq<CqlValueView> },
    SelectRow { kind: EntityKind, key: Seq<CqlValueView> },
    SelectByIndex { kind: EntityKind, column: int, value: CqlValueView },
    ListAppend { kind: EntityKind, key: Seq<CqlValueView>, column: int, values: Seq<Seq<char>> },
    ListRemove { kind: EntityKind, key: Seq<CqlValueView>, column: int, values: Seq<Seq<char>> },
}

impl View for Statement {
    type V = StatementView;

    open spec fn view(&self) -> StatementView {
        match self {
            Statement::CreateTable { kind } => StatementView::CreateTable { kind: *kind },
            Statement::CreateIndex { kind, column } => StatementView::CreateIndex {
                kind: *kind,
                column: *column as int,
            },
            Statement::Insert { kind, row } => StatementView::Insert { kind: *kind, row: row@ },
            Statement::Update { kind, row } => StatementView::Update { kind: *kind, row: row@ },
            Statement::SelectPartition { kind, key } => StatementView::SelectPartition {
                kind: *kind,
                key: key@,
            },
            Statement::SelectRow { kind, key } => StatementView::SelectRow {
                kind: *kind,
                key: key@,
            },
            Statement::SelectByIndex { kind, column, value } => StatementView::SelectByIndex {
                kind: *kind,
                column: *column as int,
                value: value@,
            },
            Statement::ListAppend { kind, key, column, values } => StatementView::ListAppend {
                kind: *kind,
                key: key@,
                column: *column as int,
                values: texts(values@),
            },
            Statement::ListRemove { kind, key, column, values } => StatementView::ListRemove {
                kind: *kind,
                key: key@,
                column: *column as int,
                values: texts(values@),
            },
        }
    }
}

/// Whether the first `count` values are present and of the types of the
/// table's first `count` columns.
pub open spec fn typed_key(kind: EntityKind, key: Seq<CqlValueView>, count: int) -> bool {
    &&& key.len() >= count
    &&& forall|i: int|
        0 <= i < count ==> key[i] != CqlValueView::Null && (#[trigger] key[i]).fits(
            layout(kind).columns[i].kind,
        )
}

/// Whether a row has a value of the right type, or none, for every column of
/// the table, and a value for every key column.
pub open spec fn typed_row(kind: EntityKind, row: Seq<CqlValueView>) -> bool {
    &&& row.len() == layout(kind).width()
    &&& typed_key(kind, row, layout(kind).key_len() as int)
    &&& forall|i: int|
        0 <= i < row.len() ==> (#[trigger] row[i]).fits(layout(kind).columns[i].kind)
}

impl StatementView {
    /// The entity whose table the statement addresses.
    pub open spec fn kind(self) -> EntityKind {
        match self {
            StatementView::CreateTable { kind } => kind,
            StatementView::CreateIndex { kind, .. } => kind,
            StatementView::Insert { kind, .. } => kind,
            StatementView::Update { kind, .. } => kind,
            StatementView::SelectPartition { kind, .. } => kind,
            StatementView::SelectRow { kind, .. } => kind,
            StatementView::SelectByIndex { kind, .. } => kind,
            StatementView::ListAppend { kind, .. } => kind,
            StatementView::ListRemove { kind, .. } => kind,
        }
    }

    /// Whether the statement writes rows, the only kind a batch may hold.
    pub open spec fn is_row_write(self) -> bool {
        self is Insert || self is Update || self is ListAppend || self is ListRemove
    }

    /// A statement is well formed when its predicate is built from the
    /// table's description alone: equality on all partition-key columns, or
    /// on all key columns, or on an indexed column; and when every value it
    /// binds has the type of its column.
    pub open spec fn wf(self) -> bool {
        let table = layout(self.kind());
        match self {
            StatementView::CreateTable { .. } => true,
            StatementView::CreateIndex { column, .. } => table.indexed(column),
            StatementView::Insert { kind, row } => typed_row(kind, row),
            StatementView::Update { kind, row } => typed_row(kind, row),
            StatementView::SelectPartition { kind, key } => {
                key.len() == table.partition_len && typed_key(kind, key, key.len() as int)
            },
            StatementView::SelectRow { kind, key } => {
                key.len() == table.key_len() && typed_key(kind, key, key.len() as int)
            },
            StatementView::SelectByIndex { column, value, .. } => {
                &&& table.indexed(column)
                &&& 0 <= column < table.width()
                &&& value != CqlValueView::Null
                &&& value.fits(table.columns[column].kind)
            },
            StatementView::ListAppend { kind, key, column, .. } => {
                &&& key.len() == table.key_len()
                &&& typed_key(kind, key, key.len() as int)
                &&& table.key_len() <= column < table.width()
                &&& table.columns[column].kind == ColumnType::TextList
            },
            StatementView::ListRemove { kind, key, column, .. } => {
                &&& key.len() == table.key_len()
                &&& typed_key(kind, key, key.len() as int)
                &&& table.key_len() <= column < table.width()
                &&& table.columns[column].kind == ColumnType::TextList
            },
        }
    }

    /// The values of the partition key the statement addresses, for the
    /// statements that address one.
    pub open spec fn partition(self) -> Seq<CqlValueView> {
        let n = layout(self.kind()).partition_len as int;
        match self {
            StatementView::Insert { row, .. } => row.take(n),
            StatementView::Update { row, .. } => row.take(n),
            StatementView::SelectPartition { key, .. } => key.take(n),
            StatementView::SelectRow { key, .. } => key.take(n),
            StatementView::ListAppend { key, .. } => key.take(n),
            StatementView::ListRemove { key, .. } => key.take(n),
            _ => Seq::empty(),
        }
    }
}

/// The statements of a sequence, as mathematics.
pub open spec fn statements(list: Seq<Statement>) -> Seq<StatementView> {
    Seq::new(list.len(), |i: int| list[i]@)
}

/// What is submitted to the store in one call.
#[derive(Debug, Clone, PartialEq, Eq)]
pub enum Action {
    /// One statement.
    Single(Statement),
    /// Several row-writing statements as one logged batch: all are applied
    /// or none is.
    LoggedBatch(Vec<Statement>),
}

/// An [`Action`] as mathematics.
pub enum ActionView {
    Single(StatementView),
    LoggedBatch(Seq<StatementView>),
}

impl View for Action {
    type V = ActionView;

    open spec fn view(&self) -> ActionView {
        match self {
            Action::Single(statement) => ActionView::Single(statement@),
            Action::LoggedBatch(list) => ActionView::LoggedBatch(statements(list@)),
        }
    }
}

impl ActionView {
    /// An action is well formed when each of its statements is, and a batch
    /// holds row-writing statements only.
    pub open spec fn wf(self) -> bool {
        match self {
            ActionView::Single(statement) => statement.wf(),
            ActionView::LoggedBatch(list) => forall|i: int|
                0 <= i < list.len() ==> (#[trigger] list[i]).wf() && list[i].is_row_write(),
        }
    }
}

/// What the store hands back for one action.
#[derive(Debug, Clone, PartialEq, Eq)]
pub enum StoreReply {
    /// The write, or every write of the batch, was applied.
    Applied,
    /// The rows a read matched.
    Rows(Vec<Row>),
    /// The store failed or rejected the action; nothing was applied.
    Failed,
}

/// A [`StoreReply`] as mathematics.
pub enum ReplyView {
    Applied,
    Rows(Seq<Seq<CqlValueView>>),
    Failed,
}

impl View for StoreReply {
    type V = ReplyView;

    open spec fn view(&self) -> ReplyView {
        match self {
            StoreReply::Applied => ReplyView::Applied,
            StoreReply::Rows(list) => ReplyView::Rows(crate::store::value::rows(list@)),
            StoreReply::Failed => ReplyView::Failed,
        }
    }
}

/// Whether the first `count` values of a row are present and typed as the
/// table's first `count` columns.
fn check_key(kind: EntityKind, key: &Row, count: usize) -> (ok: bool)
    requires
        count <= layout(kind).width(),
    ensures
        ok == typed_key(kind, key@, count as int),
{
    if key.values.len() < count {
        return false;
    }
    let mut i: usize = 0;
    while i < count
        invariant
            i <= count,
            count <= key.values.len(),
            count <= layout(kind).width(),
            forall|j: int|
                0 <= j < i ==> key@[j] != CqlValueView::Null && (#[trigger] key@[j]).fits(
                    layout(kind).columns[j].kind,
                ),
        decreases count - i,
    {
        let fits = match SchemaRegistry::column_type(kind, i) {
            Some(column) => key.values[i].fits(column),
            None => false,
        };
        let present = !matches!(key.values[i], CqlValue::Null);
        assert(key@[i as int] == key.values[i as int]@);
        if !fits || !present {
            return false;
        }
        i += 1;
    }
    true
}

/// Whether a row is typed as the table's columns.
pub fn check_row(kind: EntityKind, row: &Row) -> (ok: bool)
    ensures
        ok == typed_row(kind, row@),
{
    if row.values.len() != SchemaRegistry::width(kind) {
        return false;
    }
    proof {
        crate::store::schema::lemma_layout_wf(kind);
    }
    if !check_key(kind, row, SchemaRegistry::key_len(kind)) {
        return false;
    }
    let mut i: usize = 0;
    while i < row.values.len()
        invariant
            i <= row.values.len(),
            row.values.len() == layout(kind).width(),
            forall|j: int| 0 <= j < i ==> (#[trigger] row@[j]).fits(layout(kind).columns[j].kind),
        decreases row.values.len() - i,
    {
        assert(row@[i as int] == row.values[i as int]@);
        let fits = match SchemaRegistry::column_type(kind, i) {
            Some(column) => row.values[i].fits(column),
            None => false,
        };
        if !fits {
            return false;
        }
        i += 1;
    }
    true
}

impl Statement {
    /// A copy of the statement.
    pub fn duplicate(&self) -> (copy: Statement)
        ensures
            copy@ == self@,
    {
        match self {
            Statement::CreateTable { kind } => Statement::CreateTable { kind: *kind },
            Statement::CreateIndex { kind, column } => Statement::CreateIndex {
                kind: *kind,
                column: *column,
            },
            Statement::Insert { kind, row } => Statement::Insert {
                kind: *kind,
                row: row.duplicate(),
            },
            Statement::Update { kind, row } => Statement::Update {
                kind: *kind,
                row: row.duplicate(),
            },
            Statement::SelectPartition { kind, key } => Statement::SelectPartition {
                kind: *kind,
                key: key.duplicate(),
            },
            Statement::SelectRow { kind, key } => Statement::SelectRow {
                kind: *kind,
                key: key.duplicate(),
            },
            Statement::SelectByIndex { kind, column, value } => Statement::SelectByIndex {
                kind: *kind,
                column: *column,
                value: value.duplicate(),
            },
            Statement::ListAppend { kind, key, column, values } => Statement::ListAppend {
                kind: *kind,
                key: key.duplicate(),
                column: *column,
                values: clone_texts(values),
            },
            Statement::ListRemove { kind, key, column, values } => Statement::ListRemove {
                kind: *kind,
                key: key.duplicate(),
                column: *column,
                values: clone_texts(values),
            },
        }
    }

    /// The entity whose table the statement addresses.
    pub fn kind(&self) -> (kind: EntityKind)
        ensures
            kind == self@.kind(),
    {
        match self {
            Statement::CreateTable { kind } => *kind,
            Statement::CreateIndex { kind, .. } => *kind,
            Statement::Insert { kind, .. } => *kind,
            Statement::Update { kind, .. } => *kind,
            Statement::SelectPartition { kind, .. } => *kind,
            Statement::SelectRow { kind, .. } => *kind,
            Statement::SelectByIndex { kind, .. } => *kind,
            Statement::ListAppend { kind, .. } => *kind,
            Statement::ListRemove { kind, .. } => *kind,
        }
    }

    /// Whether the statement writes rows.
    pub fn is_row_write(&self) -> (r: bool)
        ensures
            r == self@.is_row_write(),
    {
        match self {
            Statement::Insert { .. } => true,
            Statement::Update { .. } => true,
            Statement::ListAppend { .. } => true,
            Statement::ListRemove { .. } => true,
            _ => false,
        }
    }

    fn is_list_column(kind: EntityKind, column: usize) -> (ok: bool)
        ensures
            ok == (layout(kind).key_len() <= column < layout(kind).width() && layout(
                kind,
            ).columns[column as int].kind == ColumnType::TextList),
    {
        SchemaRegistry::key_len(kind) <= column && match SchemaRegistry::column_type(
            kind,
            column,
        ) {
            Some(held) => held == ColumnType::TextList,
            None => false,
        }
    }

    /// Whether the statement is well formed.
    pub fn is_wf(&self) -> (ok: bool)
        ensures
            ok == self@.wf(),
    {
        proof {
            crate::store::schema::lemma_layout_wf(self@.kind());
        }
        match self {
            Statement::CreateTable { .. } => true,
            Statement::CreateIndex { kind, column } => SchemaRegistry::is_indexed(*kind, *column),
            Statement::Insert { kind, row } => check_row(*kind, row),
            Statement::Update { kind, row } => check_row(*kind, row),
            Statement::SelectPartition { kind, key } => {
                key.values.len() == SchemaRegistry::partition_len(*kind) && check_key(
                    *kind,
                    key,
                    key.values.len(),
                )
            },
            Statement::SelectRow { kind, key } => {
                key.values.len() == SchemaRegistry::key_len(*kind) && check_key(
                    *kind,
                    key,
                    key.values.len(),
                )
            },
            Statement::SelectByIndex { kind, column, value } => {
                SchemaRegistry::is_indexed(*kind, *column) && !matches!(value, CqlValue::Null)
                    && match SchemaRegistry::column_type(*kind, *column) {
                    Some(held) => value.fits(held),
                    None => false,
                }
            },
            Statement::ListAppend { kind, key, column, .. } => {
                key.values.len() == SchemaRegistry::key_len(*kind) && check_key(
                    *kind,
                    key,
                    key.values.len(),
                ) && Self::is_list_column(*kind, *column)
            },
            Statement::ListRemove { kind, key, column, .. } => {
                key.values.len() == SchemaRegistry::key_len(*kind) && check_key(
                    *kind,
                    key,
                    key.values.len(),
                ) && Self::is_list_column(*kind, *column)
            },
        }
    }
}

} // verus!
