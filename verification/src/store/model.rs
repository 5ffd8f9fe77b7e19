//! What the statements mean: the store as a state machine over plain rows.
//!
//! A table keeps at most one row per key. Writing a row replaces the row
//! with the same key. Reading a partition yields its rows ordered by the
//! clustering key, latest first where the table is kept in descending order.
//! An action is applied whole or, when the store fails or rejects it, not at
//! all.

use crate::store::schema::{layout, EntityKind, ENTITY_COUNT};
use crate::store::statement::{typed_key, typed_row, ActionView, ReplyView, StatementView};
use crate::store::value::{starts_with, CqlValueView};
use vstd::prelude::*;

verus! {

/// The position of the last row that starts with `key`, or -1 if none does.
pub open spec fn last_match(rows: Seq<Seq<CqlValueView>>, key: Seq<CqlValueView>) -> int
    decreases rows.len(),
{
    if rows.len() == 0 {
        -1
    } else if starts_with(rows.last(), key) {
        rows.len() - 1
    } else {
        last_match(rows.drop_last(), key)
    }
}

/// The rows that start with `prefix`, in table order.
pub open spec fn matching(rows: Seq<Seq<CqlValueView>>, prefix: Seq<CqlValueView>) -> Seq<
    Seq<CqlValueView>,
>
    decreases rows.len(),
{
    if rows.len() == 0 {
        Seq::empty()
    } else if starts_with(rows.last(), prefix) {
        matching(rows.drop_last(), prefix).push(rows.last())
    } else {
        matching(rows.drop_last(), prefix)
    }
}

/// What a row is ordered by within its partition: the time in its first
/// clustering column. A table without clustering key, and a row without a
/// time there, has rank 0.
pub open spec fn rank(kind: EntityKind, row: Seq<CqlValueView>) -> int {
    let at = layout(kind).partition_len as int;
    if layout(kind).clustering_len > 0 && at < row.len() {
        match row[at] {
            CqlValueView::Timestamp(time) => time as int,
            _ => 0,
        }
    } else {
        0
    }
}

/// Whether one row may stand before another in an answer.
pub open spec fn in_order(
    kind: EntityKind,
    first: Seq<CqlValueView>,
    second: Seq<CqlValueView>,
) -> bool {
    if layout(kind).descending {
        rank(kind, first) >= rank(kind, second)
    } else {
        rank(kind, first) <= rank(kind, second)
    }
}

/// Whether every row stands before the rows that follow it.
pub open spec fn ordered(kind: EntityKind, rows: Seq<Seq<CqlValueView>>) -> bool {
    forall|i: int, j: int|
        0 <= i < j < rows.len() ==> in_order(kind, #[trigger] rows[i], #[trigger] rows[j])
}

/// The rows with one more row put in its place: behind the last row that may
/// stand before it.
pub open spec fn place(
    kind: EntityKind,
    rows: Seq<Seq<CqlValueView>>,
    row: Seq<CqlValueView>,
) -> Seq<Seq<CqlValueView>>
    decreases rows.len(),
{
    if rows.len() == 0 {
        seq![row]
    } else if in_order(kind, rows.last(), row) {
        rows.push(row)
    } else {
        place(kind, rows.drop_last(), row).push(rows.last())
    }
}

/// The rows put in order, one after the other.
pub open spec fn arrange(kind: EntityKind, rows: Seq<Seq<CqlValueView>>) -> Seq<
    Seq<CqlValueView>,
>
    decreases rows.len(),
{
    if rows.len() == 0 {
        Seq::empty()
    } else {
        place(kind, arrange(kind, rows.drop_last()), rows.last())
    }
}

/// The rows whose column `column` holds `value`, in table order.
pub open spec fn with_value(
    rows: Seq<Seq<CqlValueView>>,
    column: int,
    value: CqlValueView,
) -> Seq<Seq<CqlValueView>>
    decreases rows.len(),
{
    if rows.len() == 0 {
        Seq::empty()
    } else if 0 <= column < rows.last().len() && rows.last()[column] == value {
        with_value(rows.drop_last(), column, value).push(rows.last())
    } else {
        with_value(rows.drop_last(), column, value)
    }
}

/// The table after a full row is written: the row with the same key is
/// replaced, or the row is added.
pub open spec fn upsert(
    rows: Seq<Seq<CqlValueView>>,
    row: Seq<CqlValueView>,
    key_len: int,
) -> Seq<Seq<CqlValueView>> {
    let at = last_match(rows, row.take(key_len));
    if at >= 0 {
        rows.update(at, row)
    } else {
        rows.push(row)
    }
}

/// The list a cell holds; a cell without a list holds the empty list.
pub open spec fn list_of(cell: CqlValueView) -> Seq<Seq<char>> {
    match cell {
        CqlValueView::TextList(list) => list,
        _ => Seq::empty(),
    }
}

/// A list without any occurrence of the given values, order kept.
pub open spec fn without(list: Seq<Seq<char>>, values: Seq<Seq<char>>) -> Seq<Seq<char>>
    decreases list.len(),
{
    if list.len() == 0 {
        Seq::empty()
    } else if values.contains(list.last()) {
        without(list.drop_last(), values)
    } else {
        without(list.drop_last(), values).push(list.last())
    }
}

/// A row that holds the given key and nothing else.
pub open spec fn blank_row(key: Seq<CqlValueView>, width: int) -> Seq<CqlValueView> {
    Seq::new(
        width as nat,
        |i: int|
            if i < key.len() {
                key[i]
            } else {
                CqlValueView::Null
            },
    )
}

/// The table after values are appended to a list column of the row with the
/// given key. A missing row comes into being when there is something to
/// append.
pub open spec fn append_at(
    rows: Seq<Seq<CqlValueView>>,
    key: Seq<CqlValueView>,
    column: int,
    values: Seq<Seq<char>>,
    width: int,
) -> Seq<Seq<CqlValueView>> {
    let at = last_match(rows, key);
    if at >= 0 {
        rows.update(
            at,
            rows[at].update(column, CqlValueView::TextList(list_of(rows[at][column]) + values)),
        )
    } else if values.len() > 0 {
        rows.push(blank_row(key, width).update(column, CqlValueView::TextList(values)))
    } else {
        rows
    }
}

/// The table after every occurrence of the values is removed from a list
/// column of the row with the given key. A missing row stays missing.
pub open spec fn remove_at(
    rows: Seq<Seq<CqlValueView>>,
    key: Seq<CqlValueView>,
    column: int,
    values: Seq<Seq<char>>,
) -> Seq<Seq<CqlValueView>> {
    let at = last_match(rows, key);
    if at >= 0 {
        rows.update(
            at,
            rows[at].update(
                column,
                CqlValueView::TextList(without(list_of(rows[at][column]), values)),
            ),
        )
    } else {
        rows
    }
}

/// One table of the store.
pub struct TableState {
    /// Whether the table has been created.
    pub created: bool,
    /// The rows, at most one per key.
    pub rows: Seq<Seq<CqlValueView>>,
    /// The columns whose secondary index has been created.
    pub indexes: Set<int>,
}

/// The store: one table per entity, in creation order.
pub struct StoreState {
    pub tables: Seq<TableState>,
}

/// No two rows share a key.
pub open spec fn unique_keys(rows: Seq<Seq<CqlValueView>>, key_len: int) -> bool {
    forall|i: int, j: int|
        0 <= i < j < rows.len() ==> (#[trigger] rows[i]).take(key_len) != (#[trigger] rows[j]).take(
            key_len,
        )
}

impl TableState {
    /// A table that was never created.
    pub open spec fn absent() -> TableState {
        TableState { created: false, rows: Seq::empty(), indexes: Set::empty() }
    }

    /// A table holds typed rows, one per key, only once created, and only
    /// the indexes its description declares.
    pub open spec fn wf(self, kind: EntityKind) -> bool {
        &&& !self.created ==> self.rows.len() == 0 && self.indexes == Set::<int>::empty()
        &&& forall|i: int| 0 <= i < self.rows.len() ==> typed_row(kind, #[trigger] self.rows[i])
        &&& unique_keys(self.rows, layout(kind).key_len() as int)
        &&& forall|c: int| self.indexes.contains(c) ==> layout(kind).indexed(c)
    }

    /// The table after an accepted statement.
    pub open spec fn effect(self, statement: StatementView) -> TableState {
        let table = layout(statement.kind());
        match statement {
            StatementView::CreateTable { .. } => TableState { created: true, ..self },
            StatementView::CreateIndex { column, .. } => TableState {
                indexes: self.indexes.insert(column),
                ..self
            },
            StatementView::Insert { row, .. } => TableState {
                rows: upsert(self.rows, row, table.key_len() as int),
                ..self
            },
            StatementView::Update { row, .. } => TableState {
                rows: upsert(self.rows, row, table.key_len() as int),
                ..self
            },
            StatementView::ListAppend { key, column, values, .. } => TableState {
                rows: append_at(self.rows, key, column, values, table.width() as int),
                ..self
            },
            StatementView::ListRemove { key, column, values, .. } => TableState {
                rows: remove_at(self.rows, key, column, values),
                ..self
            },
            _ => self,
        }
    }

    /// What the table answers to an accepted statement.
    pub open spec fn answer(self, statement: StatementView) -> ReplyView {
        match statement {
            StatementView::SelectPartition { kind, key } => ReplyView::Rows(
                arrange(kind, matching(self.rows, key)),
            ),
            StatementView::SelectRow { key, .. } => ReplyView::Rows(matching(self.rows, key)),
            StatementView::SelectByIndex { column, value, .. } => ReplyView::Rows(
                with_value(self.rows, column, value),
            ),
            _ => ReplyView::Applied,
        }
    }

    /// A statement is accepted when it is well formed, its table exists (or
    /// is about to be created) and, for a read by index, the index exists.
    pub open spec fn accepts(self, statement: StatementView) -> bool {
        &&& statement.wf()
        &&& statement is CreateTable || self.created
        &&& statement matches StatementView::SelectByIndex { column, .. }
            ==> self.indexes.contains(column)
    }
}

impl StoreState {
    /// The store before anything was created.
    pub open spec fn empty() -> StoreState {
        StoreState { tables: Seq::new(ENTITY_COUNT as nat, |i: int| TableState::absent()) }
    }

    /// The table of an entity.
    pub open spec fn table(self, kind: EntityKind) -> TableState {
        self.tables[kind.ordinal()]
    }

    pub open spec fn wf(self) -> bool {
        &&& self.tables.len() == ENTITY_COUNT
        &&& forall|i: int|
            0 <= i < ENTITY_COUNT ==> (#[trigger] self.tables[i]).wf(EntityKind::at(i))
    }

    pub open spec fn accepts(self, statement: StatementView) -> bool {
        self.table(statement.kind()).accepts(statement)
    }

    /// The store after an accepted statement: only the statement's table
    /// changes.
    pub open spec fn effect(self, statement: StatementView) -> StoreState {
        StoreState {
            tables: self.tables.update(
                statement.kind().ordinal(),
                self.table(statement.kind()).effect(statement),
            ),
        }
    }

    pub open spec fn answer(self, statement: StatementView) -> ReplyView {
        self.table(statement.kind()).answer(statement)
    }

    /// Whether every statement of a batch is accepted.
    pub open spec fn accepts_all(self, batch: Seq<StatementView>) -> bool {
        forall|i: int|
            0 <= i < batch.len() ==> (#[trigger] batch[i]).is_row_write() && self.accepts(batch[i])
    }

    /// The store after the statements of a batch, applied in order.
    pub open spec fn effect_all(self, batch: Seq<StatementView>) -> StoreState
        decreases batch.len(),
    {
        if batch.len() == 0 {
            self
        } else {
            self.effect_all(batch.drop_last()).effect(batch.last())
        }
    }

    /// One call to the store. `fault` stands for a failure of the store
    /// itself: a timeout, a lost connection. A failed or rejected action
    /// leaves the store as it was.
    pub open spec fn step(self, action: ActionView, fault: bool) -> (StoreState, ReplyView) {
        match action {
            ActionView::Single(statement) => {
                if fault || !self.accepts(statement) {
                    (self, ReplyView::Failed)
                } else {
                    (self.effect(statement), self.answer(statement))
                }
            },
            ActionView::LoggedBatch(batch) => {
                if fault || !self.accepts_all(batch) {
                    (self, ReplyView::Failed)
                } else {
                    (self.effect_all(batch), ReplyView::Applied)
                }
            },
        }
    }
}

/// Where `last_match` points there is the last row that starts with the key;
/// where it points nowhere, no row starts with it.
pub proof fn lemma_last_match(rows: Seq<Seq<CqlValueView>>, key: Seq<CqlValueView>)
    ensures
        -1 <= last_match(rows, key) < rows.len(),
        last_match(rows, key) >= 0 ==> starts_with(rows[last_match(rows, key)], key),
        forall|j: int|
            last_match(rows, key) < j < rows.len() ==> !starts_with(#[trigger] rows[j], key),
    decreases rows.len(),
{
    if rows.len() > 0 && !starts_with(rows.last(), key) {
        lemma_last_match(rows.drop_last(), key);
        assert forall|j: int| last_match(rows, key) < j < rows.len() implies !starts_with(
            #[trigger] rows[j],
            key,
        ) by {
            if j < rows.len() - 1 {
                assert(rows[j] == rows.drop_last()[j]);
            }
        }
    }
}

/// Every row that a read by prefix yields is a row of the table and starts
/// with the prefix.
pub proof fn lemma_matching_rows(rows: Seq<Seq<CqlValueView>>, prefix: Seq<CqlValueView>)
    ensures
        matching(rows, prefix).len() <= rows.len(),
        forall|i: int|
            0 <= i < matching(rows, prefix).len() ==> starts_with(
                #[trigger] matching(rows, prefix)[i],
                prefix,
            ) && rows.contains(matching(rows, prefix)[i]),
    decreases rows.len(),
{
    if rows.len() > 0 {
        lemma_matching_rows(rows.drop_last(), prefix);
        let found = matching(rows, prefix);
        assert forall|i: int| 0 <= i < found.len() implies starts_with(#[trigger] found[i], prefix)
            && rows.contains(found[i]) by {
            if i < matching(rows.drop_last(), prefix).len() {
                let row = matching(rows.drop_last(), prefix)[i];
                assert(rows.drop_last().contains(row));
                let k = choose|k: int|
                    0 <= k < rows.drop_last().len() && rows.drop_last()[k] == row;
                assert(rows[k] == row);
            } else {
                assert(found[i] == rows[rows.len() - 1]);
            }
        }
    }
}

/// A read by prefix yields nothing where no row starts with the prefix.
pub proof fn lemma_matching_none(rows: Seq<Seq<CqlValueView>>, prefix: Seq<CqlValueView>)
    requires
        forall|j: int| 0 <= j < rows.len() ==> !starts_with(#[trigger] rows[j], prefix),
    ensures
        matching(rows, prefix) == Seq::<Seq<CqlValueView>>::empty(),
    decreases rows.len(),
{
    if rows.len() > 0 {
        assert(!starts_with(rows[rows.len() - 1], prefix));
        assert forall|j: int| 0 <= j < rows.drop_last().len() implies !starts_with(
            #[trigger] rows.drop_last()[j],
            prefix,
        ) by {
            assert(rows.drop_last()[j] == rows[j]);
        }
        lemma_matching_none(rows.drop_last(), prefix);
    }
}

/// A read by prefix yields exactly one row where exactly one starts with the
/// prefix.
pub proof fn lemma_matching_one(
    rows: Seq<Seq<CqlValueView>>,
    prefix: Seq<CqlValueView>,
    at: int,
)
    requires
        0 <= at < rows.len(),
        starts_with(rows[at], prefix),
        forall|j: int| 0 <= j < rows.len() && j != at ==> !starts_with(#[trigger] rows[j], prefix),
    ensures
        matching(rows, prefix) == seq![rows[at]],
    decreases rows.len(),
{
    let front = rows.drop_last();
    if at == rows.len() - 1 {
        assert forall|j: int| 0 <= j < front.len() implies !starts_with(
            #[trigger] front[j],
            prefix,
        ) by {
            assert(front[j] == rows[j]);
        }
        lemma_matching_none(front, prefix);
        assert(matching(rows, prefix) =~= seq![rows[at]]);
    } else {
        assert(!starts_with(rows[rows.len() - 1], prefix));
        assert(front[at] == rows[at]);
        assert forall|j: int| 0 <= j < front.len() && j != at implies !starts_with(
            #[trigger] front[j],
            prefix,
        ) by {
            assert(front[j] == rows[j]);
        }
        lemma_matching_one(front, prefix, at);
    }
}

/// Every row that a read by value yields is a row of the table and holds the
/// value in the column.
pub proof fn lemma_with_value_rows(
    rows: Seq<Seq<CqlValueView>>,
    column: int,
    value: CqlValueView,
)
    ensures
        with_value(rows, column, value).len() <= rows.len(),
        forall|i: int|
            0 <= i < with_value(rows, column, value).len() ==> {
                let row = #[trigger] with_value(rows, column, value)[i];
                0 <= column < row.len() && row[column] == value && rows.contains(row)
            },
    decreases rows.len(),
{
    if rows.len() > 0 {
        lemma_with_value_rows(rows.drop_last(), column, value);
        let found = with_value(rows, column, value);
        assert forall|i: int| 0 <= i < found.len() implies {
            let row = #[trigger] found[i];
            0 <= column < row.len() && row[column] == value && rows.contains(row)
        } by {
            if i < with_value(rows.drop_last(), column, value).len() {
                let row = with_value(rows.drop_last(), column, value)[i];
                assert(rows.drop_last().contains(row));
                let k = choose|k: int|
                    0 <= k < rows.drop_last().len() && rows.drop_last()[k] == row;
                assert(rows[k] == row);
            } else {
                assert(found[i] == rows[rows.len() - 1]);
            }
        }
    }
}

/// A read by value yields every row that holds the value in the column.
pub proof fn lemma_with_value_finds(
    rows: Seq<Seq<CqlValueView>>,
    column: int,
    value: CqlValueView,
    at: int,
)
    requires
        0 <= at < rows.len(),
        0 <= column < rows[at].len(),
        rows[at][column] == value,
    ensures
        with_value(rows, column, value).contains(rows[at]),
    decreases rows.len(),
{
    let found = with_value(rows, column, value);
    if at == rows.len() - 1 {
        assert(found[found.len() - 1] == rows[at]);
    } else {
        lemma_with_value_finds(rows.drop_last(), column, value, at);
        let front = with_value(rows.drop_last(), column, value);
        let k = choose|k: int| 0 <= k < front.len() && front[k] == rows.drop_last()[at];
        assert(found[k] == rows[at]);
    }
}

/// Removing values leaves no occurrence of them and keeps everything else.
pub proof fn lemma_without(list: Seq<Seq<char>>, values: Seq<Seq<char>>)
    ensures
        forall|text: Seq<char>|
            #[trigger] without(list, values).contains(text) <==> list.contains(text)
                && !values.contains(text),
    decreases list.len(),
{
    if list.len() > 0 {
        lemma_without(list.drop_last(), values);
        let kept = without(list, values);
        let front = without(list.drop_last(), values);
        assert forall|text: Seq<char>| #[trigger]
            kept.contains(text) <==> list.contains(text) && !values.contains(text) by {
            if kept.contains(text) {
                let k = choose|k: int| 0 <= k < kept.len() && kept[k] == text;
                if k < front.len() {
                    assert(front[k] == text);
                    assert(front.contains(text));
                    let m = choose|m: int|
                        0 <= m < list.drop_last().len() && list.drop_last()[m] == text;
                    assert(list[m] == text);
                } else {
                    assert(text == list[list.len() - 1]);
                }
            }
            if list.contains(text) && !values.contains(text) {
                let m = choose|m: int| 0 <= m < list.len() && list[m] == text;
                if m < list.len() - 1 {
                    assert(list.drop_last()[m] == text);
                    assert(front.contains(text));
                    let k = choose|k: int| 0 <= k < front.len() && front[k] == text;
                    assert(kept[k] == text);
                } else {
                    assert(kept[kept.len() - 1] == text);
                }
            }
        }
    }
}

/// Removing values that do not occur changes nothing.
pub proof fn lemma_without_absent(list: Seq<Seq<char>>, values: Seq<Seq<char>>)
    requires
        forall|i: int| 0 <= i < list.len() ==> !values.contains(#[trigger] list[i]),
    ensures
        without(list, values) == list,
    decreases list.len(),
{
    if list.len() > 0 {
        assert(!values.contains(list[list.len() - 1]));
        assert forall|i: int| 0 <= i < list.drop_last().len() implies !values.contains(
            #[trigger] list.drop_last()[i],
        ) by {
            assert(list.drop_last()[i] == list[i]);
        }
        lemma_without_absent(list.drop_last(), values);
        assert(without(list, values) =~= list);
    }
}

/// Removing values from a concatenation removes them from each part.
pub proof fn lemma_without_concat(
    left: Seq<Seq<char>>,
    right: Seq<Seq<char>>,
    values: Seq<Seq<char>>,
)
    ensures
        without(left + right, values) == without(left, values) + without(right, values),
    decreases right.len(),
{
    if right.len() == 0 {
        assert(left + right =~= left);
        assert(without(left, values) + without(right, values) =~= without(left, values));
    } else {
        assert((left + right).drop_last() =~= left + right.drop_last());
        assert((left + right).last() == right.last());
        lemma_without_concat(left, right.drop_last(), values);
        assert(without(left + right, values) =~= without(left, values) + without(right, values));
    }
}

/// Writing a full row keeps the table well formed.
pub proof fn lemma_upsert_wf(table: TableState, kind: EntityKind, row: Seq<CqlValueView>)
    requires
        table.wf(kind),
        table.created,
        typed_row(kind, row),
        layout(kind).wf(),
    ensures
        (TableState { rows: upsert(table.rows, row, layout(kind).key_len() as int), ..table }).wf(
            kind,
        ),
{
    let n = layout(kind).key_len() as int;
    let key = row.take(n);
    let rows = table.rows;
    let after = upsert(rows, row, n);
    let at = last_match(rows, key);
    lemma_last_match(rows, key);
    if at >= 0 {
        assert(rows[at].take(n) == key);
        assert forall|i: int, j: int| 0 <= i < j < after.len() implies (#[trigger] after[i]).take(n)
            != (#[trigger] after[j]).take(n) by {
            assert(rows[i].take(n) != rows[j].take(n));
        }
    } else {
        assert forall|i: int, j: int| 0 <= i < j < after.len() implies (#[trigger] after[i]).take(n)
            != (#[trigger] after[j]).take(n) by {
            if j == rows.len() {
                assert(typed_row(kind, rows[i]));
                assert(!starts_with(rows[i], key));
            } else {
                assert(rows[i].take(n) != rows[j].take(n));
            }
        }
    }
    assert forall|i: int| 0 <= i < after.len() implies typed_row(kind, #[trigger] after[i]) by {
        if at >= 0 {
            if i != at {
                assert(after[i] == rows[i]);
            }
        } else if i < rows.len() {
            assert(after[i] == rows[i]);
        }
    }
}

/// Changing a cell outside the key keeps a row typed, where the new value
/// fits the column.
pub proof fn lemma_update_typed(
    kind: EntityKind,
    row: Seq<CqlValueView>,
    column: int,
    value: CqlValueView,
)
    requires
        typed_row(kind, row),
        layout(kind).key_len() <= column < layout(kind).width(),
        value.fits(layout(kind).columns[column].kind),
    ensures
        typed_row(kind, row.update(column, value)),
        row.update(column, value).take(layout(kind).key_len() as int) == row.take(
            layout(kind).key_len() as int,
        ),
{
    let n = layout(kind).key_len() as int;
    let changed = row.update(column, value);
    assert(changed.take(n) =~= row.take(n));
    assert forall|i: int| 0 <= i < n implies changed[i] != CqlValueView::Null && (
    #[trigger] changed[i]).fits(layout(kind).columns[i].kind) by {
        assert(changed[i] == row[i]);
    }
    assert forall|i: int| 0 <= i < changed.len() implies (#[trigger] changed[i]).fits(
        layout(kind).columns[i].kind,
    ) by {
        if i != column {
            assert(changed[i] == row[i]);
        }
    }
}

/// A row that holds only a typed key is typed, and the key is its prefix.
pub proof fn lemma_blank_row(kind: EntityKind, key: Seq<CqlValueView>)
    requires
        key.len() == layout(kind).key_len(),
        typed_key(kind, key, key.len() as int),
        layout(kind).wf(),
    ensures
        typed_row(kind, blank_row(key, layout(kind).width() as int)),
        blank_row(key, layout(kind).width() as int).take(key.len() as int) == key,
{
    let row = blank_row(key, layout(kind).width() as int);
    assert(row.take(key.len() as int) =~= key);
    assert forall|i: int| 0 <= i < key.len() implies row[i] != CqlValueView::Null && (
    #[trigger] row[i]).fits(layout(kind).columns[i].kind) by {
        assert(row[i] == key[i]);
    }
    assert forall|i: int| 0 <= i < row.len() implies (#[trigger] row[i]).fits(
        layout(kind).columns[i].kind,
    ) by {
        if i < key.len() {
            assert(row[i] == key[i]);
        }
    }
}

/// Replacing a row by one with the same key keeps keys unique and rows typed.
pub proof fn lemma_replace_wf(
    table: TableState,
    kind: EntityKind,
    at: int,
    row: Seq<CqlValueView>,
)
    requires
        table.wf(kind),
        0 <= at < table.rows.len(),
        typed_row(kind, row),
        row.take(layout(kind).key_len() as int) == table.rows[at].take(
            layout(kind).key_len() as int,
        ),
    ensures
        (TableState { rows: table.rows.update(at, row), ..table }).wf(kind),
{
    let n = layout(kind).key_len() as int;
    let rows = table.rows;
    let after = rows.update(at, row);
    assert forall|i: int, j: int| 0 <= i < j < after.len() implies (#[trigger] after[i]).take(n)
        != (#[trigger] after[j]).take(n) by {
        assert(rows[i].take(n) != rows[j].take(n));
    }
    assert forall|i: int| 0 <= i < after.len() implies typed_row(kind, #[trigger] after[i]) by {
        if i != at {
            assert(after[i] == rows[i]);
        }
    }
}

/// Every accepted statement keeps its table well formed.
pub proof fn lemma_table_effect_wf(table: TableState, statement: StatementView)
    requires
        table.wf(statement.kind()),
        table.accepts(statement),
    ensures
        table.effect(statement).wf(statement.kind()),
{
    let kind = statement.kind();
    let n = layout(kind).key_len() as int;
    crate::store::schema::lemma_layout_wf(kind);
    match statement {
        StatementView::Insert { row, .. } => {
            lemma_upsert_wf(table, kind, row);
        },
        StatementView::Update { row, .. } => {
            lemma_upsert_wf(table, kind, row);
        },
        StatementView::ListAppend { key, column, values, .. } => {
            let at = last_match(table.rows, key);
            lemma_last_match(table.rows, key);
            if at >= 0 {
                let cell = CqlValueView::TextList(list_of(table.rows[at][column]) + values);
                lemma_update_typed(kind, table.rows[at], column, cell);
                lemma_replace_wf(table, kind, at, table.rows[at].update(column, cell));
            } else if values.len() > 0 {
                let blank = blank_row(key, layout(kind).width() as int);
                let cell = CqlValueView::TextList(values);
                lemma_blank_row(kind, key);
                lemma_update_typed(kind, blank, column, cell);
                let row = blank.update(column, cell);
                assert(row.take(n) == key);
                assert(last_match(table.rows, row.take(n)) == -1);
                lemma_upsert_wf(table, kind, row);
                assert(upsert(table.rows, row, n) == table.rows.push(row));
            }
        },
        StatementView::ListRemove { key, column, values, .. } => {
            let at = last_match(table.rows, key);
            lemma_last_match(table.rows, key);
            if at >= 0 {
                let cell = CqlValueView::TextList(
                    without(list_of(table.rows[at][column]), values),
                );
                lemma_update_typed(kind, table.rows[at], column, cell);
                lemma_replace_wf(table, kind, at, table.rows[at].update(column, cell));
            }
        },
        _ => {},
    }
}

/// Every accepted statement keeps the store well formed.
pub proof fn lemma_effect_wf(state: StoreState, statement: StatementView)
    requires
        state.wf(),
        state.accepts(statement),
    ensures
        state.effect(statement).wf(),
{
    let kind = statement.kind();
    assert(EntityKind::at(kind.ordinal()) == kind);
    lemma_table_effect_wf(state.table(kind), statement);
    let next = state.effect(statement);
    assert forall|i: int| 0 <= i < ENTITY_COUNT implies (#[trigger] next.tables[i]).wf(
        EntityKind::at(i),
    ) by {
        if i != kind.ordinal() {
            assert(next.tables[i] == state.tables[i]);
        }
    }
}

/// Accepted batches keep the store well formed, and what a batch's
/// statements accept does not change while it is applied.
pub proof fn lemma_effect_all_wf(state: StoreState, batch: Seq<StatementView>)
    requires
        state.wf(),
        state.accepts_all(batch),
    ensures
        state.effect_all(batch).wf(),
        forall|kind: EntityKind|
            (#[trigger] state.effect_all(batch).table(kind)).created == state.table(kind).created
                && state.effect_all(batch).table(kind).indexes == state.table(kind).indexes,
    decreases batch.len(),
{
    if batch.len() > 0 {
        let front = batch.drop_last();
        assert forall|i: int| 0 <= i < front.len() implies (#[trigger] front[i]).is_row_write()
            && state.accepts(front[i]) by {
            assert(front[i] == batch[i]);
        }
        lemma_effect_all_wf(state, front);
        let before = state.effect_all(front);
        let last = batch.last();
        assert(last == batch[batch.len() - 1]);
        assert(last.is_row_write() && state.accepts(last));
        assert(before.table(last.kind()).created == state.table(last.kind()).created);
        assert(before.accepts(last));
        lemma_effect_wf(before, last);
        assert forall|kind: EntityKind|
            (#[trigger] state.effect_all(batch).table(kind)).created == state.table(kind).created
                && state.effect_all(batch).table(kind).indexes == state.table(
                kind,
            ).indexes by {
            assert(before.table(kind).created == state.table(kind).created);
        }
    }
}

/// Whatever the action and whether or not the store fails, a well-formed
/// store stays well formed.
pub proof fn lemma_step_wf(state: StoreState, action: ActionView, fault: bool)
    requires
        state.wf(),
    ensures
        state.step(action, fault).0.wf(),
{
    match action {
        ActionView::Single(statement) => {
            if !fault && state.accepts(statement) {
                lemma_effect_wf(state, statement);
            }
        },
        ActionView::LoggedBatch(batch) => {
            if !fault && state.accepts_all(batch) {
                lemma_effect_all_wf(state, batch);
            }
        },
    }
}

/// After a full row is written, a read by its key yields that row and no
/// other.
pub proof fn lemma_upsert_then_read(
    rows: Seq<Seq<CqlValueView>>,
    row: Seq<CqlValueView>,
    key_len: int,
)
    requires
        0 <= key_len <= row.len(),
        unique_keys(rows, key_len),
        forall|i: int| 0 <= i < rows.len() ==> key_len <= (#[trigger] rows[i]).len(),
    ensures
        matching(upsert(rows, row, key_len), row.take(key_len)) == seq![row],
{
    let key = row.take(key_len);
    let after = upsert(rows, row, key_len);
    let at = last_match(rows, key);
    lemma_last_match(rows, key);
    assert(row.take(key.len() as int) =~= key);
    if at >= 0 {
        assert(after[at] == row);
        assert forall|j: int| 0 <= j < after.len() && j != at implies !starts_with(
            #[trigger] after[j],
            key,
        ) by {
            assert(after[j] == rows[j]);
            if starts_with(rows[j], key) {
                assert(rows[j].take(key_len) == rows[at].take(key_len));
                if j < at {
                    assert(rows[j].take(key_len) != rows[at].take(key_len));
                } else {
                    assert(rows[at].take(key_len) != rows[j].take(key_len));
                }
            }
        }
        lemma_matching_one(after, key, at);
    } else {
        let end = rows.len() as int;
        assert(after[end] == row);
        assert forall|j: int| 0 <= j < after.len() && j != end implies !starts_with(
            #[trigger] after[j],
            key,
        ) by {
            assert(after[j] == rows[j]);
        }
        lemma_matching_one(after, key, end);
    }
}

/// The list a row's column holds, where the table has a row with the key;
/// the empty list where it has none.
pub open spec fn list_at(
    rows: Seq<Seq<CqlValueView>>,
    key: Seq<CqlValueView>,
    column: int,
) -> Seq<Seq<char>> {
    let at = last_match(rows, key);
    if at >= 0 {
        list_of(rows[at][column])
    } else {
        Seq::empty()
    }
}

/// After an append the list holds what it held, then the values appended.
pub proof fn lemma_append_list(
    rows: Seq<Seq<CqlValueView>>,
    key: Seq<CqlValueView>,
    column: int,
    values: Seq<Seq<char>>,
    width: int,
)
    requires
        key.len() <= column < width,
        forall|i: int| 0 <= i < rows.len() ==> (#[trigger] rows[i]).len() == width,
    ensures
        list_at(append_at(rows, key, column, values, width), key, column) == list_at(
            rows,
            key,
            column,
        ) + values,
{
    let at = last_match(rows, key);
    let after = append_at(rows, key, column, values, width);
    lemma_last_match(rows, key);
    if at >= 0 {
        let cell = CqlValueView::TextList(list_of(rows[at][column]) + values);
        let changed = rows[at].update(column, cell);
        assert(changed.take(key.len() as int) =~= rows[at].take(key.len() as int));
        lemma_last_match_update(rows, key, at, changed);
    } else if values.len() > 0 {
        let row = blank_row(key, width).update(column, CqlValueView::TextList(values));
        assert(row.take(key.len() as int) =~= key);
        assert(after.last() == row);
        assert(Seq::<Seq<char>>::empty() + values =~= values);
    } else {
        assert(Seq::<Seq<char>>::empty() + values =~= Seq::<Seq<char>>::empty());
    }
}

/// After a removal the list holds what it held, without the values removed.
pub proof fn lemma_remove_list(
    rows: Seq<Seq<CqlValueView>>,
    key: Seq<CqlValueView>,
    column: int,
    values: Seq<Seq<char>>,
    width: int,
)
    requires
        key.len() <= column < width,
        forall|i: int| 0 <= i < rows.len() ==> (#[trigger] rows[i]).len() == width,
    ensures
        list_at(remove_at(rows, key, column, values), key, column) == without(
            list_at(rows, key, column),
            values,
        ),
{
    let at = last_match(rows, key);
    lemma_last_match(rows, key);
    if at >= 0 {
        let cell = CqlValueView::TextList(without(list_of(rows[at][column]), values));
        let changed = rows[at].update(column, cell);
        assert(changed.take(key.len() as int) =~= rows[at].take(key.len() as int));
        lemma_last_match_update(rows, key, at, changed);
    }
}

/// Replacing the row `last_match` points at by one that starts with the key
/// too leaves `last_match` where it was.
pub proof fn lemma_last_match_update(
    rows: Seq<Seq<CqlValueView>>,
    key: Seq<CqlValueView>,
    at: int,
    row: Seq<CqlValueView>,
)
    requires
        at == last_match(rows, key),
        at >= 0,
        starts_with(row, key),
    ensures
        last_match(rows.update(at, row), key) == at,
    decreases rows.len(),
{
    lemma_last_match(rows, key);
    let changed = rows.update(at, row);
    if at == rows.len() - 1 {
        assert(changed.last() == row);
    } else {
        assert(changed.last() == rows.last());
        assert(changed.drop_last() =~= rows.drop_last().update(at, row));
        lemma_last_match_update(rows.drop_last(), key, at, row);
    }
}

/// Every row of a well-formed table has the width of the table.
pub proof fn lemma_rows_width(table: TableState, kind: EntityKind)
    requires
        table.wf(kind),
    ensures
        forall|i: int|
            0 <= i < table.rows.len() ==> (#[trigger] table.rows[i]).len() == layout(kind).width(),
{
    assert forall|i: int| 0 <= i < table.rows.len() implies (#[trigger] table.rows[i]).len()
        == layout(kind).width() by {
        assert(typed_row(kind, table.rows[i]));
    }
}

/// Where a row is put: behind the last row that may stand before it.
pub proof fn lemma_place(
    kind: EntityKind,
    rows: Seq<Seq<CqlValueView>>,
    row: Seq<CqlValueView>,
    at: int,
)
    requires
        0 <= at <= rows.len(),
        at > 0 ==> in_order(kind, rows[at - 1], row),
        forall|j: int| at <= j < rows.len() ==> !in_order(kind, #[trigger] rows[j], row),
    ensures
        place(kind, rows, row) == rows.take(at).push(row) + rows.skip(at),
    decreases rows.len(),
{
    if rows.len() == 0 {
        assert(rows.take(at).push(row) + rows.skip(at) =~= seq![row]);
    } else if at == rows.len() {
        assert(rows.take(at).push(row) + rows.skip(at) =~= rows.push(row));
    } else {
        let front = rows.drop_last();
        assert(!in_order(kind, rows[rows.len() - 1], row));
        assert forall|j: int| at <= j < front.len() implies !in_order(
            kind,
            #[trigger] front[j],
            row,
        ) by {
            assert(front[j] == rows[j]);
        }
        if at > 0 {
            assert(front[at - 1] == rows[at - 1]);
        }
        lemma_place(kind, front, row, at);
        assert(front.take(at) =~= rows.take(at));
        assert((front.take(at).push(row) + front.skip(at)).push(rows.last()) =~= rows.take(
            at,
        ).push(row) + rows.skip(at));
    }
}

/// Putting a row in its place keeps every row and adds that one.
pub proof fn lemma_place_members(
    kind: EntityKind,
    rows: Seq<Seq<CqlValueView>>,
    row: Seq<CqlValueView>,
)
    ensures
        place(kind, rows, row).len() == rows.len() + 1,
        forall|other: Seq<CqlValueView>| #[trigger]
            place(kind, rows, row).contains(other) <==> rows.contains(other) || other == row,
    decreases rows.len(),
{
    let placed = place(kind, rows, row);
    if rows.len() == 0 {
        assert forall|other: Seq<CqlValueView>| #[trigger]
            placed.contains(other) <==> rows.contains(other) || other == row by {
            if other == row {
                assert(placed[0] == row);
            }
        }
    } else if in_order(kind, rows.last(), row) {
        assert forall|other: Seq<CqlValueView>| #[trigger]
            placed.contains(other) <==> rows.contains(other) || other == row by {
            if placed.contains(other) {
                let k = choose|k: int| 0 <= k < placed.len() && placed[k] == other;
                if k < rows.len() {
                    assert(rows[k] == other);
                }
            }
            if rows.contains(other) {
                let k = choose|k: int| 0 <= k < rows.len() && rows[k] == other;
                assert(placed[k] == other);
            }
            if other == row {
                assert(placed[rows.len() as int] == row);
            }
        }
    } else {
        let front = rows.drop_last();
        let inner = place(kind, front, row);
        lemma_place_members(kind, front, row);
        assert forall|other: Seq<CqlValueView>| #[trigger]
            placed.contains(other) <==> rows.contains(other) || other == row by {
            if placed.contains(other) {
                let k = choose|k: int| 0 <= k < placed.len() && placed[k] == other;
                if k < inner.len() {
                    assert(inner[k] == other);
                    assert(inner.contains(other));
                    if front.contains(other) {
                        let m = choose|m: int| 0 <= m < front.len() && front[m] == other;
                        assert(rows[m] == other);
                    }
                } else {
                    assert(rows[rows.len() - 1] == other);
                }
            }
            if rows.contains(other) {
                let m = choose|m: int| 0 <= m < rows.len() && rows[m] == other;
                if m < front.len() {
                    assert(front[m] == other);
                    assert(front.contains(other));
                    assert(inner.contains(other));
                    let k = choose|k: int| 0 <= k < inner.len() && inner[k] == other;
                    assert(placed[k] == other);
                } else {
                    assert(placed[placed.len() - 1] == other);
                }
            }
            if other == row {
                assert(inner.contains(other));
                let k = choose|k: int| 0 <= k < inner.len() && inner[k] == other;
                assert(placed[k] == other);
            }
        }
    }
}

/// A row put in its place among rows in order leaves the rows in order.
pub proof fn lemma_place_ordered(
    kind: EntityKind,
    rows: Seq<Seq<CqlValueView>>,
    row: Seq<CqlValueView>,
)
    requires
        ordered(kind, rows),
    ensures
        ordered(kind, place(kind, rows, row)),
    decreases rows.len(),
{
    let placed = place(kind, rows, row);
    if rows.len() == 0 {
    } else if in_order(kind, rows.last(), row) {
        assert forall|i: int, j: int| 0 <= i < j < placed.len() implies in_order(
            kind,
            #[trigger] placed[i],
            #[trigger] placed[j],
        ) by {
            if j == rows.len() {
                if i < rows.len() - 1 {
                    assert(in_order(kind, rows[i], rows[rows.len() - 1]));
                }
            } else {
                assert(in_order(kind, rows[i], rows[j]));
            }
        }
    } else {
        let front = rows.drop_last();
        let inner = place(kind, front, row);
        assert forall|i: int, j: int| 0 <= i < j < front.len() implies in_order(
            kind,
            #[trigger] front[i],
            #[trigger] front[j],
        ) by {
            assert(in_order(kind, rows[i], rows[j]));
        }
        lemma_place_ordered(kind, front, row);
        lemma_place_members(kind, front, row);
        assert forall|i: int, j: int| 0 <= i < j < placed.len() implies in_order(
            kind,
            #[trigger] placed[i],
            #[trigger] placed[j],
        ) by {
            if j == placed.len() - 1 {
                assert(inner.contains(inner[i]));
                if inner[i] != row {
                    let m = choose|m: int| 0 <= m < front.len() && front[m] == inner[i];
                    assert(in_order(kind, rows[m], rows[rows.len() - 1]));
                }
            } else {
                assert(in_order(kind, inner[i], inner[j]));
            }
        }
    }
}

/// Rows put in order are the same rows, and they are in order.
pub proof fn lemma_arrange(kind: EntityKind, rows: Seq<Seq<CqlValueView>>)
    ensures
        arrange(kind, rows).len() == rows.len(),
        ordered(kind, arrange(kind, rows)),
        forall|row: Seq<CqlValueView>| #[trigger]
            arrange(kind, rows).contains(row) <==> rows.contains(row),
    decreases rows.len(),
{
    if rows.len() > 0 {
        let front = rows.drop_last();
        let inner = arrange(kind, front);
        lemma_arrange(kind, front);
        lemma_place_members(kind, inner, rows.last());
        lemma_place_ordered(kind, inner, rows.last());
        let arranged = arrange(kind, rows);
        assert forall|row: Seq<CqlValueView>| #[trigger]
            arranged.contains(row) <==> rows.contains(row) by {
            if arranged.contains(row) {
                if row == rows.last() {
                    assert(rows[rows.len() - 1] == row);
                } else {
                    assert(front.contains(row));
                    let m = choose|m: int| 0 <= m < front.len() && front[m] == row;
                    assert(rows[m] == row);
                }
            }
            if rows.contains(row) {
                let m = choose|m: int| 0 <= m < rows.len() && rows[m] == row;
                if m < front.len() {
                    assert(front[m] == row);
                    assert(front.contains(row));
                }
            }
        }
    }
}

/// Whether the table holds a row with the given key, or key prefix.
pub open spec fn holds(rows: Seq<Seq<CqlValueView>>, key: Seq<CqlValueView>) -> bool {
    exists|i: int| 0 <= i < rows.len() && starts_with(#[trigger] rows[i], key)
}

/// No accepted statement takes a row away: a key the table holds, it still
/// holds afterwards.
pub proof fn lemma_table_keeps_keys(
    table: TableState,
    statement: StatementView,
    key: Seq<CqlValueView>,
)
    requires
        table.wf(statement.kind()),
        table.accepts(statement),
        key.len() <= layout(statement.kind()).key_len(),
        holds(table.rows, key),
    ensures
        holds(table.effect(statement).rows, key),
{
    let kind = statement.kind();
    let n = layout(kind).key_len() as int;
    let rows = table.rows;
    let after = table.effect(statement).rows;
    let held = choose|i: int| 0 <= i < rows.len() && starts_with(#[trigger] rows[i], key);
    crate::store::schema::lemma_layout_wf(kind);
    lemma_rows_width(table, kind);
    match statement {
        StatementView::Insert { row, .. } => {
            lemma_upsert_keeps(rows, row, n, key, held);
        },
        StatementView::Update { row, .. } => {
            lemma_upsert_keeps(rows, row, n, key, held);
        },
        StatementView::ListAppend { key: on, column, values, .. } => {
            let at = last_match(rows, on);
            lemma_last_match(rows, on);
            if at >= 0 {
                let cell = CqlValueView::TextList(list_of(rows[at][column]) + values);
                let changed = rows[at].update(column, cell);
                assert(changed.take(key.len() as int) =~= rows[at].take(key.len() as int));
                assert(starts_with(after[held], key));
            } else if values.len() > 0 {
                assert(after[held] == rows[held]);
            }
        },
        StatementView::ListRemove { key: on, column, values, .. } => {
            let at = last_match(rows, on);
            lemma_last_match(rows, on);
            if at >= 0 {
                let cell = CqlValueView::TextList(without(list_of(rows[at][column]), values));
                let changed = rows[at].update(column, cell);
                assert(changed.take(key.len() as int) =~= rows[at].take(key.len() as int));
                assert(starts_with(after[held], key));
            }
        },
        _ => {},
    }
}

/// Writing a full row keeps every key the table holds.
pub proof fn lemma_upsert_keeps(
    rows: Seq<Seq<CqlValueView>>,
    row: Seq<CqlValueView>,
    key_len: int,
    key: Seq<CqlValueView>,
    held: int,
)
    requires
        0 <= held < rows.len(),
        starts_with(rows[held], key),
        key.len() <= key_len <= row.len(),
        forall|i: int| 0 <= i < rows.len() ==> key_len <= (#[trigger] rows[i]).len(),
    ensures
        holds(upsert(rows, row, key_len), key),
{
    let after = upsert(rows, row, key_len);
    let at = last_match(rows, row.take(key_len));
    lemma_last_match(rows, row.take(key_len));
    if at >= 0 && at == held {
        assert(rows[at].take(key_len) == row.take(key_len));
        assert forall|i: int| 0 <= i < key.len() implies row[i] == key[i] by {
            assert(rows[at].take(key_len)[i] == rows[at][i]);
            assert(row.take(key_len)[i] == row[i]);
            assert(rows[at].take(key.len() as int)[i] == rows[at][i]);
        }
        assert(row.take(key.len() as int) =~= key);
        assert(starts_with(after[at], key));
    } else {
        assert(after[held] == rows[held]);
        assert(starts_with(after[held], key));
    }
}

/// A read by prefix yields every row that starts with the prefix.
pub proof fn lemma_matching_finds(
    rows: Seq<Seq<CqlValueView>>,
    prefix: Seq<CqlValueView>,
    at: int,
)
    requires
        0 <= at < rows.len(),
        starts_with(rows[at], prefix),
    ensures
        matching(rows, prefix).contains(rows[at]),
    decreases rows.len(),
{
    let found = matching(rows, prefix);
    if at == rows.len() - 1 {
        assert(found[found.len() - 1] == rows[at]);
    } else {
        lemma_matching_finds(rows.drop_last(), prefix, at);
        let front = matching(rows.drop_last(), prefix);
        let k = choose|k: int| 0 <= k < front.len() && front[k] == rows.drop_last()[at];
        if starts_with(rows.last(), prefix) {
            assert(found[k] == rows[at]);
        } else {
            assert(found[k] == rows[at]);
        }
    }
}

/// The key of the row a list mutation names.
pub open spec fn mutated_key(statement: StatementView) -> Seq<CqlValueView> {
    match statement {
        StatementView::ListAppend { key, .. } => key,
        StatementView::ListRemove { key, .. } => key,
        _ => Seq::empty(),
    }
}

/// The list column a list mutation names.
pub open spec fn mutated_column(statement: StatementView) -> int {
    match statement {
        StatementView::ListAppend { column, .. } => column,
        StatementView::ListRemove { column, .. } => column,
        _ => -1,
    }
}

/// What a list mutation leaves alone in its table: whether the table and
/// its indexes exist, every row with another key, and in the row it names
/// every column but the list column it names. No row goes away.
pub open spec fn leaves_rest(
    before: TableState,
    after: TableState,
    key: Seq<CqlValueView>,
    column: int,
) -> bool {
    &&& after.created == before.created
    &&& after.indexes == before.indexes
    &&& after.rows.len() >= before.rows.len()
    &&& forall|i: int|
        0 <= i < before.rows.len() && !starts_with(#[trigger] before.rows[i], key)
            ==> after.rows[i] == before.rows[i]
    &&& forall|i: int|
        0 <= i < before.rows.len() && starts_with(#[trigger] before.rows[i], key) ==> {
            &&& after.rows[i].len() == before.rows[i].len()
            &&& starts_with(after.rows[i], key)
        }
    &&& forall|i: int, c: int|
        0 <= i < before.rows.len() && 0 <= c < before.rows[i].len() && c != column
            ==> #[trigger] after.rows[i][c] == before.rows[i][c]
}

/// A list mutation touches the list column it names, in the row it names,
/// and nothing else of its table.
pub proof fn lemma_table_mutation_leaves_rest(table: TableState, statement: StatementView)
    requires
        table.wf(statement.kind()),
        table.accepts(statement),
        statement is ListAppend || statement is ListRemove,
    ensures
        leaves_rest(
            table,
            table.effect(statement),
            mutated_key(statement),
            mutated_column(statement),
        ),
{
    let kind = statement.kind();
    let key = mutated_key(statement);
    let column = mutated_column(statement);
    let rows = table.rows;
    let after = table.effect(statement).rows;
    let at = last_match(rows, key);
    crate::store::schema::lemma_layout_wf(kind);
    lemma_rows_width(table, kind);
    lemma_last_match(rows, key);
    if at >= 0 {
        let changed = after[at];
        assert(after.len() == rows.len());
        assert(changed.len() == rows[at].len());
        assert(changed.take(key.len() as int) =~= rows[at].take(key.len() as int));
        assert forall|i: int|
            0 <= i < rows.len() && !starts_with(#[trigger] rows[i], key) implies after[i]
                == rows[i] by {
            assert(i != at);
        }
        assert forall|i: int| 0 <= i < rows.len() && starts_with(#[trigger] rows[i], key) implies {
            &&& after[i].len() == rows[i].len()
            &&& starts_with(after[i], key)
        } by {
            if i != at {
                assert(after[i] == rows[i]);
            }
        }
        assert forall|i: int, c: int|
            0 <= i < rows.len() && 0 <= c < rows[i].len() && c != column implies
                #[trigger] after[i][c] == rows[i][c] by {
            if i != at {
                assert(after[i] == rows[i]);
            }
        }
    } else {
        assert forall|i: int| 0 <= i < rows.len() implies after[i] == rows[i] && !starts_with(
            #[trigger] rows[i],
            key,
        ) by {
        }
    }
}

} // verus!
