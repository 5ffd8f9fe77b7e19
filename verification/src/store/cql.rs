//! The text of each statement and the values bound to it.
//!
//! Every statement is written with `?` in place of each value; the values
//! travel beside the text, in the order of the marks.

use crate::common::types::{clone_texts, texts};
use crate::store::schema::{layout, SchemaRegistry, TableLayout, TableSchema};
use crate::store::statement::{Statement, StatementView};
use crate::store::value::{cells, ColumnType, CqlValue, CqlValueView};
use vstd::prelude::*;
use vstd::string::StringExecFns;

verus! {

/// The parts of a list written one after another with a separator between
/// each two.
pub open spec fn joined(parts: Seq<Seq<char>>, separator: Seq<char>) -> Seq<char>
    decreases parts.len(),
{
    if parts.len() == 0 {
        Seq::empty()
    } else if parts.len() == 1 {
        parts[0]
    } else {
        joined(parts.drop_last(), separator) + separator + parts.last()
    }
}

/// The name of a column type.
pub open spec fn type_word(kind: ColumnType) -> Seq<char> {
    match kind {
        ColumnType::Timeuuid => "timeuuid"@,
        ColumnType::Timestamp => "timestamp"@,
        ColumnType::Text => "text"@,
        ColumnType::TextList => "list<text>"@,
    }
}

/// The names of the columns from one position up to another.
pub open spec fn names(table: TableLayout, from: int, to: int) -> Seq<Seq<char>> {
    Seq::new((to - from) as nat, |i: int| table.columns[from + i].name)
}

/// Every column with its type, as a table definition lists them.
pub open spec fn definitions(table: TableLayout) -> Seq<Seq<char>> {
    Seq::new(
        table.width(),
        |i: int| table.columns[i].name + " "@ + type_word(table.columns[i].kind),
    )
}

/// An equality on each column from one position up to another.
pub open spec fn conditions(table: TableLayout, from: int, to: int) -> Seq<Seq<char>> {
    Seq::new((to - from) as nat, |i: int| table.columns[from + i].name + " = ?"@)
}

/// Each clustering column with the direction rows are kept in.
pub open spec fn orderings(table: TableLayout) -> Seq<Seq<char>> {
    Seq::new(
        table.clustering_len,
        |i: int|
            table.columns[table.partition_len + i].name + (if table.descending {
                " DESC"@
            } else {
                " ASC"@
            }),
    )
}

/// As many marks as there are values to bind.
pub open spec fn marks(count: int) -> Seq<Seq<char>> {
    Seq::new(count as nat, |i: int| "?"@)
}

/// The text that creates a table unless it exists.
pub open spec fn create_table_text(table: TableLayout) -> Seq<char> {
    let partition = table.partition_len as int;
    let key = table.key_len() as int;
    "CREATE TABLE IF NOT EXISTS "@ + table.table + " ("@ + joined(definitions(table), ", "@)
        + ", PRIMARY KEY (("@ + joined(names(table, 0, partition), ", "@) + ")"@ + (if key
        > partition {
        ", "@ + joined(names(table, partition, key), ", "@) + "))"@
            + " WITH CLUSTERING ORDER BY ("@ + joined(orderings(table), ", "@) + ")"@
    } else {
        "))"@
    })
}

/// The text that creates the index on a column unless it exists.
pub open spec fn create_index_text(table: TableLayout, column: int) -> Seq<char> {
    "CREATE INDEX IF NOT EXISTS ON "@ + table.table + " ("@ + table.columns[column].name + ")"@
}

/// The text that writes a full row.
pub open spec fn insert_text(table: TableLayout) -> Seq<char> {
    "INSERT INTO "@ + table.table + " ("@ + joined(names(table, 0, table.width() as int), ", "@)
        + ") VALUES ("@ + joined(marks(table.width() as int), ", "@) + ")"@
}

/// The text that overwrites the row with a key.
pub open spec fn update_text(table: TableLayout) -> Seq<char> {
    "UPDATE "@ + table.table + " SET "@ + joined(
        conditions(table, table.key_len() as int, table.width() as int),
        ", "@,
    ) + " WHERE "@ + joined(conditions(table, 0, table.key_len() as int), " AND "@)
}

/// The text that reads the rows with the given leading key columns.
pub open spec fn select_text(table: TableLayout, keys: int) -> Seq<char> {
    "SELECT "@ + joined(names(table, 0, table.width() as int), ", "@) + " FROM "@ + table.table
        + " WHERE "@ + joined(conditions(table, 0, keys), " AND "@)
}

/// The text that reads the rows whose indexed column holds a value.
pub open spec fn select_by_index_text(table: TableLayout, column: int) -> Seq<char> {
    "SELECT "@ + joined(names(table, 0, table.width() as int), ", "@) + " FROM "@ + table.table
        + " WHERE "@ + table.columns[column].name + " = ?"@
}

/// The text that appends to, or removes from, a list column of one row.
pub open spec fn list_text(table: TableLayout, column: int, append: bool) -> Seq<char> {
    "UPDATE "@ + table.table + " SET "@ + table.columns[column].name + " = "@
        + table.columns[column].name + (if append {
        " + ?"@
    } else {
        " - ?"@
    }) + " WHERE "@ + joined(conditions(table, 0, table.key_len() as int), " AND "@)
}

impl StatementView {
    /// The text of the statement.
    pub open spec fn cql(self) -> Seq<char> {
        let table = layout(self.kind());
        match self {
            StatementView::CreateTable { .. } => create_table_text(table),
            StatementView::CreateIndex { column, .. } => create_index_text(table, column),
            StatementView::Insert { .. } => insert_text(table),
            StatementView::Update { .. } => update_text(table),
            StatementView::SelectPartition { .. } => select_text(table, table.partition_len as int),
            StatementView::SelectRow { .. } => select_text(table, table.key_len() as int),
            StatementView::SelectByIndex { column, .. } => select_by_index_text(table, column),
            StatementView::ListAppend { column, .. } => list_text(table, column, true),
            StatementView::ListRemove { column, .. } => list_text(table, column, false),
        }
    }

    /// The values bound to the marks of the text, in order.
    pub open spec fn bound(self) -> Seq<CqlValueView> {
        let table = layout(self.kind());
        match self {
            StatementView::CreateTable { .. } => Seq::empty(),
            StatementView::CreateIndex { .. } => Seq::empty(),
            StatementView::Insert { row, .. } => row,
            StatementView::Update { row, .. } => if row.len() >= table.key_len() {
                row.skip(table.key_len() as int) + row.take(table.key_len() as int)
            } else {
                row
            },
            StatementView::SelectPartition { key, .. } => key,
            StatementView::SelectRow { key, .. } => key,
            StatementView::SelectByIndex { value, .. } => seq![value],
            StatementView::ListAppend { key, values, .. } => seq![CqlValueView::TextList(values)]
                + key,
            StatementView::ListRemove { key, values, .. } => seq![CqlValueView::TextList(values)]
                + key,
        }
    }
}

/// Writes the parts of a list one after another with a separator between
/// each two.
pub fn join(parts: &Vec<String>, separator: &str) -> (text: String)
    ensures
        text@ == joined(texts(parts@), separator@),
{
    let mut text = String::new();
    let mut i: usize = 0;
    assert(texts(parts@).take(0) =~= Seq::<Seq<char>>::empty());
    while i < parts.len()
        invariant
            i <= parts.len(),
            text@ == joined(texts(parts@).take(i as int), separator@),
        decreases parts.len() - i,
    {
        let ghost seen = texts(parts@).take(i as int + 1);
        assert(seen.drop_last() =~= texts(parts@).take(i as int));
        assert(seen.last() == parts[i as int]@);
        if i > 0 {
            text.append(separator);
        } else {
            assert(text@ + parts[i as int]@ =~= parts[i as int]@);
        }
        text.append(parts[i].as_str());
        i += 1;
    }
    assert(texts(parts@).take(parts.len() as int) =~= texts(parts@));
    text
}

fn type_text(kind: ColumnType) -> (text: &'static str)
    ensures
        text@ == type_word(kind),
{
    match kind {
        ColumnType::Timeuuid => "timeuuid",
        ColumnType::Timestamp => "timestamp",
        ColumnType::Text => "text",
        ColumnType::TextList => "list<text>",
    }
}

fn column_names(schema: &TableSchema, from: usize, to: usize) -> (list: Vec<String>)
    requires
        from <= to <= schema@.width(),
    ensures
        texts(list@) == names(schema@, from as int, to as int),
{
    let mut list: Vec<String> = Vec::new();
    let mut i: usize = from;
    while i < to
        invariant
            from <= i <= to,
            to <= schema.columns.len(),
            list.len() == i - from,
            forall|j: int| 0 <= j < i - from ==> list[j]@ == schema.columns[from + j].name@,
        decreases to - i,
    {
        list.push(schema.columns[i].name.clone());
        i += 1;
    }
    assert(texts(list@) =~= names(schema@, from as int, to as int));
    list
}

fn column_conditions(schema: &TableSchema, from: usize, to: usize) -> (list: Vec<String>)
    requires
        from <= to <= schema@.width(),
    ensures
        texts(list@) == conditions(schema@, from as int, to as int),
{
    let mut list: Vec<String> = Vec::new();
    let mut i: usize = from;
    while i < to
        invariant
            from <= i <= to,
            to <= schema.columns.len(),
            list.len() == i - from,
            forall|j: int|
                0 <= j < i - from ==> list[j]@ == schema.columns[from + j].name@ + " = ?"@,
        decreases to - i,
    {
        let mut condition = schema.columns[i].name.clone();
        condition.append(" = ?");
        list.push(condition);
        i += 1;
    }
    assert(texts(list@) =~= conditions(schema@, from as int, to as int));
    list
}

fn column_definitions(schema: &TableSchema) -> (list: Vec<String>)
    ensures
        texts(list@) == definitions(schema@),
{
    let mut list: Vec<String> = Vec::new();
    let mut i: usize = 0;
    while i < schema.columns.len()
        invariant
            i <= schema.columns.len(),
            list.len() == i,
            forall|j: int|
                0 <= j < i ==> list[j]@ == schema.columns[j].name@ + " "@ + type_word(
                    schema.columns[j].kind,
                ),
        decreases schema.columns.len() - i,
    {
        let mut definition = schema.columns[i].name.clone();
        definition.append(" ");
        definition.append(type_text(schema.columns[i].kind));
        list.push(definition);
        i += 1;
    }
    assert(texts(list@) =~= definitions(schema@));
    list
}

fn column_orderings(schema: &TableSchema) -> (list: Vec<String>)
    requires
        schema@.key_len() <= schema@.width(),
    ensures
        texts(list@) == orderings(schema@),
{
    let mut list: Vec<String> = Vec::new();
    let mut i: usize = 0;
    while i < schema.clustering_len
        invariant
            i <= schema.clustering_len,
            schema.partition_len + schema.clustering_len <= schema.columns.len(),
            list.len() == i,
            forall|j: int|
                0 <= j < i ==> list[j]@ == schema.columns[schema.partition_len + j].name@ + (
                if schema.descending {
                    " DESC"@
                } else {
                    " ASC"@
                }),
        decreases schema.clustering_len - i,
    {
        let mut ordering = schema.columns[schema.partition_len + i].name.clone();
        if schema.descending {
            ordering.append(" DESC");
        } else {
            ordering.append(" ASC");
        }
        list.push(ordering);
        i += 1;
    }
    assert(texts(list@) =~= orderings(schema@));
    list
}

fn question_marks(count: usize) -> (list: Vec<String>)
    ensures
        texts(list@) == marks(count as int),
{
    let mut list: Vec<String> = Vec::new();
    let mut i: usize = 0;
    while i < count
        invariant
            i <= count,
            list.len() == i,
            forall|j: int| 0 <= j < i ==> list[j]@ == "?"@,
        decreases count - i,
    {
        list.push(String::from_str("?"));
        i += 1;
    }
    assert(texts(list@) =~= marks(count as int));
    list
}

fn create_table(schema: &TableSchema) -> (text: String)
    requires
        schema@.wf(),
    ensures
        text@ == create_table_text(schema@),
{
    assert(schema@.key_len() <= schema.columns.len());
    let key = schema.partition_len + schema.clustering_len;
    let mut text = String::from_str("CREATE TABLE IF NOT EXISTS ");
    text.append(schema.table.as_str());
    text.append(" (");
    text.append(join(&column_definitions(schema), ", ").as_str());
    text.append(", PRIMARY KEY ((");
    text.append(join(&column_names(schema, 0, schema.partition_len), ", ").as_str());
    text.append(")");
    if key > schema.partition_len {
        text.append(", ");
        text.append(join(&column_names(schema, schema.partition_len, key), ", ").as_str());
        text.append("))");
        text.append(" WITH CLUSTERING ORDER BY (");
        text.append(join(&column_orderings(schema), ", ").as_str());
        text.append(")");
    } else {
        text.append("))");
    }
    assert(text@ =~= create_table_text(schema@));
    text
}

fn create_index(schema: &TableSchema, column: usize) -> (text: String)
    requires
        column < schema@.width(),
    ensures
        text@ == create_index_text(schema@, column as int),
{
    let mut text = String::from_str("CREATE INDEX IF NOT EXISTS ON ");
    text.append(schema.table.as_str());
    text.append(" (");
    text.append(schema.columns[column].name.as_str());
    text.append(")");
    text
}

fn insert(schema: &TableSchema) -> (text: String)
    ensures
        text@ == insert_text(schema@),
{
    let mut text = String::from_str("INSERT INTO ");
    text.append(schema.table.as_str());
    text.append(" (");
    text.append(join(&column_names(schema, 0, schema.columns.len()), ", ").as_str());
    text.append(") VALUES (");
    text.append(join(&question_marks(schema.columns.len()), ", ").as_str());
    text.append(")");
    text
}

fn update(schema: &TableSchema) -> (text: String)
    requires
        schema@.wf(),
    ensures
        text@ == update_text(schema@),
{
    assert(schema@.key_len() <= schema.columns.len());
    let key = schema.partition_len + schema.clustering_len;
    let mut text = String::from_str("UPDATE ");
    text.append(schema.table.as_str());
    text.append(" SET ");
    text.append(join(&column_conditions(schema, key, schema.columns.len()), ", ").as_str());
    text.append(" WHERE ");
    text.append(join(&column_conditions(schema, 0, key), " AND ").as_str());
    text
}

fn select(schema: &TableSchema, keys: usize) -> (text: String)
    requires
        keys <= schema@.width(),
    ensures
        text@ == select_text(schema@, keys as int),
{
    let mut text = String::from_str("SELECT ");
    text.append(join(&column_names(schema, 0, schema.columns.len()), ", ").as_str());
    text.append(" FROM ");
    text.append(schema.table.as_str());
    text.append(" WHERE ");
    text.append(join(&column_conditions(schema, 0, keys), " AND ").as_str());
    text
}

fn select_by_index(schema: &TableSchema, column: usize) -> (text: String)
    requires
        column < schema@.width(),
    ensures
        text@ == select_by_index_text(schema@, column as int),
{
    let mut text = String::from_str("SELECT ");
    text.append(join(&column_names(schema, 0, schema.columns.len()), ", ").as_str());
    text.append(" FROM ");
    text.append(schema.table.as_str());
    text.append(" WHERE ");
    text.append(schema.columns[column].name.as_str());
    text.append(" = ?");
    text
}

fn list_mutation(schema: &TableSchema, column: usize, append: bool) -> (text: String)
    requires
        schema@.wf(),
        column < schema@.width(),
    ensures
        text@ == list_text(schema@, column as int, append),
{
    assert(schema@.key_len() <= schema.columns.len());
    let key = schema.partition_len + schema.clustering_len;
    let mut text = String::from_str("UPDATE ");
    text.append(schema.table.as_str());
    text.append(" SET ");
    text.append(schema.columns[column].name.as_str());
    text.append(" = ");
    text.append(schema.columns[column].name.as_str());
    if append {
        text.append(" + ?");
    } else {
        text.append(" - ?");
    }
    text.append(" WHERE ");
    text.append(join(&column_conditions(schema, 0, key), " AND ").as_str());
    text
}

fn copy_cells(values: &Vec<CqlValue>, from: usize, to: usize, into: &mut Vec<CqlValue>)
    requires
        from <= to <= values.len(),
    ensures
        cells(final(into)@) == cells(old(into)@) + cells(values@).subrange(from as int, to as int),
{
    let ghost start = cells(into@);
    let mut i: usize = from;
    assert(cells(values@).subrange(from as int, from as int) =~= Seq::<CqlValueView>::empty());
    assert(start + Seq::<CqlValueView>::empty() =~= start);
    while i < to
        invariant
            from <= i <= to,
            to <= values.len(),
            cells(into@) == start + cells(values@).subrange(from as int, i as int),
        decreases to - i,
    {
        let ghost before = cells(into@);
        into.push(values[i].duplicate());
        assert(cells(into@) =~= before.push(values[i as int]@));
        assert(cells(values@).subrange(from as int, i as int + 1) =~= cells(values@).subrange(
            from as int,
            i as int,
        ).push(values[i as int]@));
        i += 1;
    }
}

impl Statement {
    /// The text of the statement, with a mark for each value. A statement
    /// that names a column its table does not have has no text.
    pub fn to_cql(&self) -> (text: Option<String>)
        ensures
            match text {
                Some(text) => text@ == self@.cql(),
                None => match self@ {
                    StatementView::CreateIndex { kind, column } => column >= layout(kind).width(),
                    StatementView::SelectByIndex { kind, column, .. } => column >= layout(
                        kind,
                    ).width(),
                    StatementView::ListAppend { kind, column, .. } => column >= layout(
                        kind,
                    ).width(),
                    StatementView::ListRemove { kind, column, .. } => column >= layout(
                        kind,
                    ).width(),
                    _ => false,
                },
            },
    {
        let schema = SchemaRegistry::describe(self.kind());
        assert(schema@.key_len() <= schema.columns.len());
        match self {
            Statement::CreateTable { .. } => Some(create_table(&schema)),
            Statement::CreateIndex { column, .. } => {
                if *column < schema.columns.len() {
                    Some(create_index(&schema, *column))
                } else {
                    None
                }
            },
            Statement::Insert { .. } => Some(insert(&schema)),
            Statement::Update { .. } => Some(update(&schema)),
            Statement::SelectPartition { .. } => Some(select(&schema, schema.partition_len)),
            Statement::SelectRow { .. } => Some(
                select(&schema, schema.partition_len + schema.clustering_len),
            ),
            Statement::SelectByIndex { column, .. } => {
                if *column < schema.columns.len() {
                    Some(select_by_index(&schema, *column))
                } else {
                    None
                }
            },
            Statement::ListAppend { column, .. } => {
                if *column < schema.columns.len() {
                    Some(list_mutation(&schema, *column, true))
                } else {
                    None
                }
            },
            Statement::ListRemove { column, .. } => {
                if *column < schema.columns.len() {
                    Some(list_mutation(&schema, *column, false))
                } else {
                    None
                }
            },
        }
    }

    /// The values bound to the marks of the text, in order: for an overwrite
    /// the columns outside the key first and the key last, as the text names
    /// them.
    pub fn bound_values(&self) -> (values: Vec<CqlValue>)
        ensures
            cells(values@) == self@.bound(),
    {
        let mut values: Vec<CqlValue> = Vec::new();
        assert(cells(values@) =~= Seq::<CqlValueView>::empty());
        match self {
            Statement::CreateTable { .. } => {},
            Statement::CreateIndex { .. } => {},
            Statement::Insert { row, .. } => {
                copy_cells(&row.values, 0, row.values.len(), &mut values);
                assert(cells(values@) =~= row@);
            },
            Statement::Update { kind, row } => {
                let key = SchemaRegistry::key_len(*kind);
                if row.values.len() >= key {
                    copy_cells(&row.values, key, row.values.len(), &mut values);
                    copy_cells(&row.values, 0, key, &mut values);
                    assert(cells(values@) =~= row@.skip(key as int) + row@.take(key as int));
                } else {
                    copy_cells(&row.values, 0, row.values.len(), &mut values);
                    assert(cells(values@) =~= row@);
                }
            },
            Statement::SelectPartition { key, .. } => {
                copy_cells(&key.values, 0, key.values.len(), &mut values);
                assert(cells(values@) =~= key@);
            },
            Statement::SelectRow { key, .. } => {
                copy_cells(&key.values, 0, key.values.len(), &mut values);
                assert(cells(values@) =~= key@);
            },
            Statement::SelectByIndex { value, .. } => {
                values.push(value.duplicate());
                assert(cells(values@) =~= seq![value@]);
            },
            Statement::ListAppend { key, values: list, .. } => {
                values.push(CqlValue::TextList(clone_texts(list)));
                assert(cells(values@) =~= seq![CqlValueView::TextList(texts(list@))]);
                copy_cells(&key.values, 0, key.values.len(), &mut values);
                assert(cells(values@) =~= seq![CqlValueView::TextList(texts(list@))] + key@);
            },
            Statement::ListRemove { key, values: list, .. } => {
                values.push(CqlValue::TextList(clone_texts(list)));
                assert(cells(values@) =~= seq![CqlValueView::TextList(texts(list@))]);
                copy_cells(&key.values, 0, key.values.len(), &mut values);
                assert(cells(values@) =~= seq![CqlValueView::TextList(texts(list@))] + key@);
            },
        }
        values
    }
}

} // verus!
