//! The store held in memory: an executable form of the model, for running
//! the repositories without a server.

use crate::common::types::{clone_texts, concat_texts, contains_text, texts};
use crate::store::model::{
    append_at, arrange, blank_row, in_order, last_match, lemma_place, lemma_table_effect_wf,
    list_of, matching, rank, remove_at, upsert, with_value, without, StoreState, TableState,
};
use crate::store::schema::{lemma_layout_wf, EntityKind, SchemaRegistry};
use crate::store::statement::{
    statements, Action, ActionView, Statement, StatementView, StoreReply,
};
use crate::store::value::{rows, CqlValue, CqlValueView, Row};
use vstd::prelude::*;

verus! {

/// The columns a list of index positions names.
pub open spec fn index_set(columns: Seq<usize>) -> Set<int> {
    Set::new(|c: int| exists|i: int| 0 <= i < columns.len() && columns[i] == c)
}

/// A list of strings without any occurrence of the given values.
fn remove_texts(list: &Vec<String>, values: &Vec<String>) -> (kept: Vec<String>)
    ensures
        texts(kept@) == without(texts(list@), texts(values@)),
{
    let mut kept: Vec<String> = Vec::new();
    let mut i: usize = 0;
    assert(texts(list@).take(0) =~= Seq::<Seq<char>>::empty());
    assert(texts(kept@) =~= Seq::<Seq<char>>::empty());
    while i < list.len()
        invariant
            i <= list.len(),
            texts(kept@) == without(texts(list@).take(i as int), texts(values@)),
        decreases list.len() - i,
    {
        let ghost seen = texts(list@).take(i as int + 1);
        assert(seen.drop_last() =~= texts(list@).take(i as int));
        assert(seen.last() == list[i as int]@);
        if !contains_text(values, &list[i]) {
            let ghost before = texts(kept@);
            kept.push(list[i].clone());
            assert(texts(kept@) =~= before.push(list[i as int]@));
        }
        i += 1;
    }
    assert(texts(list@).take(list.len() as int) =~= texts(list@));
    kept
}

/// The first `count` values of a row.
fn prefix(row: &Row, count: usize) -> (key: Row)
    requires
        count <= row@.len(),
    ensures
        key@ == row@.take(count as int),
{
    let mut values: Vec<CqlValue> = Vec::new();
    let mut i: usize = 0;
    while i < count
        invariant
            i <= count,
            count <= row.values.len(),
            values.len() == i,
            forall|j: int| 0 <= j < i ==> values[j]@ == row.values[j]@,
        decreases count - i,
    {
        values.push(row.values[i].duplicate());
        i += 1;
    }
    let key = Row { values };
    assert(key@ =~= row@.take(count as int));
    key
}

/// A row of the given width that holds the key and nothing else.
fn blank(key: &Row, width: usize) -> (row: Row)
    requires
        key@.len() <= width,
    ensures
        row@ == blank_row(key@, width as int),
{
    let mut values: Vec<CqlValue> = Vec::new();
    let mut i: usize = 0;
    while i < width
        invariant
            i <= width,
            key.values.len() <= width,
            values.len() == i,
            forall|j: int|
                0 <= j < i ==> values[j]@ == (if j < key.values.len() {
                    key.values[j]@
                } else {
                    CqlValueView::Null
                }),
        decreases width - i,
    {
        if i < key.values.len() {
            values.push(key.values[i].duplicate());
        } else {
            values.push(CqlValue::Null);
        }
        i += 1;
    }
    let row = Row { values };
    assert(row@ =~= blank_row(key@, width as int));
    row
}

/// The time a row is ordered by within its partition.
fn rank_of(kind: EntityKind, row: &Row) -> (time: i64)
    ensures
        time == rank(kind, row@),
{
    let at = SchemaRegistry::partition_len(kind);
    let clustered = SchemaRegistry::key_len(kind) > at;
    if clustered && at < row.values.len() {
        assert(row@[at as int] == row.values[at as int]@);
        match &row.values[at] {
            CqlValue::Timestamp(time) => time.0,
            _ => 0,
        }
    } else {
        0
    }
}

/// Whether one row may stand before another in an answer.
fn may_precede(kind: EntityKind, first: &Row, second: &Row) -> (ok: bool)
    ensures
        ok == in_order(kind, first@, second@),
{
    if SchemaRegistry::descending(kind) {
        rank_of(kind, first) >= rank_of(kind, second)
    } else {
        rank_of(kind, first) <= rank_of(kind, second)
    }
}

/// Puts the rows in order.
fn arranged(kind: EntityKind, list: Vec<Row>) -> (sorted: Vec<Row>)
    ensures
        rows(sorted@) == arrange(kind, rows(list@)),
{
    let mut sorted: Vec<Row> = Vec::new();
    let mut i: usize = 0;
    assert(rows(list@).take(0) =~= Seq::<Seq<CqlValueView>>::empty());
    assert(rows(sorted@) =~= Seq::<Seq<CqlValueView>>::empty());
    while i < list.len()
        invariant
            i <= list.len(),
            rows(sorted@) == arrange(kind, rows(list@).take(i as int)),
        decreases list.len() - i,
    {
        let ghost seen = rows(list@).take(i as int + 1);
        assert(seen.drop_last() =~= rows(list@).take(i as int));
        assert(seen.last() == list[i as int]@);
        let ghost before = rows(sorted@);
        let mut at: usize = sorted.len();
        while at > 0 && !may_precede(kind, &sorted[at - 1], &list[i])
            invariant
                at <= sorted.len(),
                i < list.len(),
                before == rows(sorted@),
                forall|j: int|
                    at <= j < before.len() ==> !in_order(
                        kind,
                        #[trigger] before[j],
                        list[i as int]@,
                    ),
            decreases at,
        {
            assert(before[at - 1] == sorted[at - 1]@);
            at -= 1;
        }
        proof {
            if at > 0 {
                assert(before[at - 1] == sorted[at - 1]@);
            }
            lemma_place(kind, before, list[i as int]@, at as int);
        }
        sorted.insert(at, list[i].duplicate());
        assert(rows(sorted@) =~= before.take(at as int).push(list[i as int]@) + before.skip(
            at as int,
        ));
        i += 1;
    }
    assert(rows(list@).take(list.len() as int) =~= rows(list@));
    sorted
}

/// One table held in memory.
struct Table {
    created: bool,
    rows: Vec<Row>,
    indexes: Vec<usize>,
}

impl View for Table {
    type V = TableState;

    closed spec fn view(&self) -> TableState {
        TableState {
            created: self.created,
            rows: rows(self.rows@),
            indexes: index_set(self.indexes@),
        }
    }
}

impl Table {
    fn new() -> (table: Table)
        ensures
            table@ == TableState::absent(),
    {
        let table = Table { created: false, rows: Vec::new(), indexes: Vec::new() };
        assert(table@.rows =~= Seq::empty());
        assert(table@.indexes =~= Set::empty());
        table
    }

    fn find_last(&self, key: &Row) -> (at: Option<usize>)
        ensures
            match at {
                Some(i) => last_match(self@.rows, key@) == i && i < self.rows.len(),
                None => last_match(self@.rows, key@) == -1,
            },
    {
        let ghost all = self@.rows;
        let mut i: usize = self.rows.len();
        assert(all.take(i as int) =~= all);
        while i > 0
            invariant
                i <= self.rows.len(),
                all == rows(self.rows@),
                last_match(all, key@) == last_match(all.take(i as int), key@),
            decreases i,
        {
            i -= 1;
            let ghost seen = all.take(i as int + 1);
            assert(seen.last() == self.rows[i as int]@);
            assert(seen.drop_last() =~= all.take(i as int));
            if self.rows[i].starts_with(key) {
                return Some(i);
            }
        }
        None
    }

    fn select(&self, key: &Row) -> (found: Vec<Row>)
        ensures
            rows(found@) == matching(self@.rows, key@),
    {
        let ghost all = self@.rows;
        let mut found: Vec<Row> = Vec::new();
        let mut i: usize = 0;
        assert(rows(found@) =~= Seq::<Seq<CqlValueView>>::empty());
        while i < self.rows.len()
            invariant
                i <= self.rows.len(),
                all == rows(self.rows@),
                rows(found@) == matching(all.take(i as int), key@),
            decreases self.rows.len() - i,
        {
            let ghost seen = all.take(i as int + 1);
            assert(seen.last() == self.rows[i as int]@);
            assert(seen.drop_last() =~= all.take(i as int));
            if self.rows[i].starts_with(key) {
                let ghost before = rows(found@);
                found.push(self.rows[i].duplicate());
                assert(rows(found@) =~= before.push(self.rows[i as int]@));
            }
            i += 1;
        }
        assert(all.take(self.rows.len() as int) =~= all);
        found
    }

    fn select_value(&self, column: usize, value: &CqlValue) -> (found: Vec<Row>)
        ensures
            rows(found@) == with_value(self@.rows, column as int, value@),
    {
        let ghost all = self@.rows;
        let mut found: Vec<Row> = Vec::new();
        let mut i: usize = 0;
        assert(rows(found@) =~= Seq::<Seq<CqlValueView>>::empty());
        while i < self.rows.len()
            invariant
                i <= self.rows.len(),
                all == rows(self.rows@),
                rows(found@) == with_value(all.take(i as int), column as int, value@),
            decreases self.rows.len() - i,
        {
            let ghost seen = all.take(i as int + 1);
            assert(seen.last() == self.rows[i as int]@);
            assert(seen.drop_last() =~= all.take(i as int));
            let row = &self.rows[i];
            if column < row.values.len() && row.values[column].same(value) {
                assert(row@[column as int] == row.values[column as int]@);
                let ghost before = rows(found@);
                found.push(row.duplicate());
                assert(rows(found@) =~= before.push(self.rows[i as int]@));
            } else if column < row.values.len() {
                assert(row@[column as int] == row.values[column as int]@);
            }
            i += 1;
        }
        assert(all.take(self.rows.len() as int) =~= all);
        found
    }

    fn has_index(&self, column: usize) -> (found: bool)
        ensures
            found == self@.indexes.contains(column as int),
    {
        let mut i: usize = 0;
        while i < self.indexes.len()
            invariant
                i <= self.indexes.len(),
                forall|j: int| 0 <= j < i ==> self.indexes[j] != column,
            decreases self.indexes.len() - i,
        {
            if self.indexes[i] == column {
                return true;
            }
            i += 1;
        }
        false
    }

    fn add_index(&mut self, column: usize)
        ensures
            final(self)@ == (TableState {
                indexes: old(self)@.indexes.insert(column as int),
                ..old(self)@
            }),
    {
        if !self.has_index(column) {
            let ghost before = self.indexes@;
            self.indexes.push(column);
            assert(index_set(self.indexes@) =~= index_set(before).insert(column as int)) by {
                let ghost after = index_set(self.indexes@);
                assert forall|c: int|
                    index_set(before).insert(column as int).contains(c) implies after.contains(
                    c,
                ) by {
                    if c == column as int {
                        assert(self.indexes@[before.len() as int] == c);
                    } else {
                        let i = choose|i: int| 0 <= i < before.len() && before[i] == c;
                        assert(self.indexes@[i] == c);
                    }
                }
                assert forall|c: int| index_set(self.indexes@).contains(c) implies index_set(
                    before,
                ).insert(column as int).contains(c) by {
                    let i = choose|i: int| 0 <= i < self.indexes@.len() && self.indexes@[i] == c;
                    if i < before.len() {
                        assert(before[i] == c);
                    }
                }
            }
        } else {
            assert(old(self)@.indexes.insert(column as int) =~= old(self)@.indexes);
        }
    }

    fn write(&mut self, row: &Row, key_len: usize)
        requires
            key_len <= row@.len(),
        ensures
            final(self)@ == (TableState {
                rows: upsert(old(self)@.rows, row@, key_len as int),
                ..old(self)@
            }),
    {
        let key = prefix(row, key_len);
        let ghost before = rows(self.rows@);
        match self.find_last(&key) {
            Some(at) => {
                self.rows.set(at, row.duplicate());
                assert(rows(self.rows@) =~= before.update(at as int, row@));
            },
            None => {
                self.rows.push(row.duplicate());
                assert(rows(self.rows@) =~= before.push(row@));
            },
        }
    }

    fn append(&mut self, key: &Row, column: usize, values: &Vec<String>, width: usize)
        requires
            key@.len() <= column < width,
            forall|i: int| 0 <= i < old(self)@.rows.len() ==> old(self)@.rows[i].len() == width,
        ensures
            final(self)@ == (TableState {
                rows: append_at(old(self)@.rows, key@, column as int, texts(values@), width as int),
                ..old(self)@
            }),
    {
        let ghost before = rows(self.rows@);
        match self.find_last(key) {
            Some(at) => {
                assert(before[at as int] == self.rows[at as int]@);
                let mut row = self.rows[at].duplicate();
                assert(row@[column as int] == row.values[column as int]@);
                let list = match &row.values[column] {
                    CqlValue::TextList(held) => concat_texts(held, values),
                    _ => {
                        assert(Seq::<Seq<char>>::empty() + texts(values@) =~= texts(values@));
                        clone_texts(values)
                    },
                };
                let ghost cell = CqlValueView::TextList(
                    list_of(before[at as int][column as int]) + texts(values@),
                );
                let ghost held = row@;
                row.values.set(column, CqlValue::TextList(list));
                assert(row@ =~= held.update(column as int, cell));
                self.rows.set(at, row);
                assert(rows(self.rows@) =~= before.update(
                    at as int,
                    before[at as int].update(column as int, cell),
                ));
            },
            None => {
                if values.len() > 0 {
                    let mut row = blank(key, width);
                    let ghost held = row@;
                    assert(row.values.len() == row@.len());
                    row.values.set(column, CqlValue::TextList(clone_texts(values)));
                    assert(row@ =~= held.update(
                        column as int,
                        CqlValueView::TextList(texts(values@)),
                    ));
                    self.rows.push(row);
                    assert(rows(self.rows@) =~= before.push(
                        blank_row(key@, width as int).update(
                            column as int,
                            CqlValueView::TextList(texts(values@)),
                        ),
                    ));
                } else {
                    assert(texts(values@).len() == 0);
                }
            },
        }
    }

    fn remove(&mut self, key: &Row, column: usize, values: &Vec<String>, width: usize)
        requires
            column < width,
            forall|i: int| 0 <= i < old(self)@.rows.len() ==> old(self)@.rows[i].len() == width,
        ensures
            final(self)@ == (TableState {
                rows: remove_at(old(self)@.rows, key@, column as int, texts(values@)),
                ..old(self)@
            }),
    {
        let ghost before = rows(self.rows@);
        match self.find_last(key) {
            Some(at) => {
                assert(before[at as int] == self.rows[at as int]@);
                let mut row = self.rows[at].duplicate();
                assert(row@[column as int] == row.values[column as int]@);
                let list = match &row.values[column] {
                    CqlValue::TextList(held) => remove_texts(held, values),
                    _ => Vec::new(),
                };
                let ghost cell = CqlValueView::TextList(
                    without(list_of(before[at as int][column as int]), texts(values@)),
                );
                assert(texts(list@) =~= without(
                    list_of(before[at as int][column as int]),
                    texts(values@),
                ));
                let ghost held = row@;
                row.values.set(column, CqlValue::TextList(list));
                assert(row@ =~= held.update(column as int, cell));
                self.rows.set(at, row);
                assert(rows(self.rows@) =~= before.update(
                    at as int,
                    before[at as int].update(column as int, cell),
                ));
            },
            None => {},
        }
    }

    fn accepts(&self, statement: &Statement) -> (ok: bool)
        ensures
            ok == self@.accepts(statement@),
    {
        if !statement.is_wf() {
            return false;
        }
        let exists = match statement {
            Statement::CreateTable { .. } => true,
            _ => self.created,
        };
        let indexed = match statement {
            Statement::SelectByIndex { column, .. } => self.has_index(*column),
            _ => true,
        };
        exists && indexed
    }

    fn apply(&mut self, statement: &Statement)
        requires
            old(self)@.wf(statement@.kind()),
            old(self)@.accepts(statement@),
        ensures
            final(self)@ == old(self)@.effect(statement@),
            final(self)@.wf(statement@.kind()),
    {
        proof {
            lemma_table_effect_wf(self@, statement@);
            lemma_layout_wf(statement@.kind());
        }
        match statement {
            Statement::CreateTable { .. } => {
                self.created = true;
            },
            Statement::CreateIndex { column, .. } => {
                self.add_index(*column);
            },
            Statement::Insert { kind, row } => {
                self.write(row, SchemaRegistry::key_len(*kind));
            },
            Statement::Update { kind, row } => {
                self.write(row, SchemaRegistry::key_len(*kind));
            },
            Statement::ListAppend { kind, key, column, values } => {
                self.append(key, *column, values, SchemaRegistry::width(*kind));
            },
            Statement::ListRemove { kind, key, column, values } => {
                self.remove(key, *column, values, SchemaRegistry::width(*kind));
            },
            _ => {},
        }
    }

    fn answer(&self, statement: &Statement) -> (reply: StoreReply)
        ensures
            reply@ == self@.answer(statement@),
    {
        match statement {
            Statement::SelectPartition { kind, key } => StoreReply::Rows(
                arranged(*kind, self.select(key)),
            ),
            Statement::SelectRow { key, .. } => StoreReply::Rows(self.select(key)),
            Statement::SelectByIndex { column, value, .. } => StoreReply::Rows(
                self.select_value(*column, value),
            ),
            _ => StoreReply::Applied,
        }
    }
}

/// The whole store held in memory, one table per entity.
pub struct MemoryStore {
    topics: Table,
    topic_messages: Table,
    latest_messages: Table,
    notifications: Table,
    topic_users: Table,
    user_topics: Table,
}

impl View for MemoryStore {
    type V = StoreState;

    closed spec fn view(&self) -> StoreState {
        StoreState {
            tables: seq![
                self.topics@,
                self.topic_messages@,
                self.latest_messages@,
                self.notifications@,
                self.topic_users@,
                self.user_topics@,
            ],
        }
    }
}

impl MemoryStore {
    /// The invariant of the store: that of the model it holds.
    pub open spec fn wf(&self) -> bool {
        self@.wf()
    }

    /// A store in which nothing has been created yet.
    pub fn new() -> (store: MemoryStore)
        ensures
            store@ == StoreState::empty(),
            store.wf(),
    {
        let store = MemoryStore {
            topics: Table::new(),
            topic_messages: Table::new(),
            latest_messages: Table::new(),
            notifications: Table::new(),
            topic_users: Table::new(),
            user_topics: Table::new(),
        };
        assert(store@.tables =~= StoreState::empty().tables);
        store
    }

    fn table(&self, kind: EntityKind) -> (table: &Table)
        ensures
            table@ == self@.table(kind),
    {
        match kind {
            EntityKind::Topic => &self.topics,
            EntityKind::TopicMessage => &self.topic_messages,
            EntityKind::LatestMessage => &self.latest_messages,
            EntityKind::Notification => &self.notifications,
            EntityKind::TopicUser => &self.topic_users,
            EntityKind::UserTopic => &self.user_topics,
        }
    }

    fn accepts(&self, statement: &Statement) -> (ok: bool)
        ensures
            ok == self@.accepts(statement@),
    {
        self.table(statement.kind()).accepts(statement)
    }

    fn apply(&mut self, statement: &Statement)
        requires
            old(self).wf(),
            old(self)@.accepts(statement@),
        ensures
            final(self)@ == old(self)@.effect(statement@),
            final(self).wf(),
    {
        let kind = statement.kind();
        assert(EntityKind::at(kind.ordinal()) == kind);
        assert(self@.tables[kind.ordinal()].wf(EntityKind::at(kind.ordinal())));
        match kind {
            EntityKind::Topic => self.topics.apply(statement),
            EntityKind::TopicMessage => self.topic_messages.apply(statement),
            EntityKind::LatestMessage => self.latest_messages.apply(statement),
            EntityKind::Notification => self.notifications.apply(statement),
            EntityKind::TopicUser => self.topic_users.apply(statement),
            EntityKind::UserTopic => self.user_topics.apply(statement),
        }
        assert(self@.tables =~= old(self)@.effect(statement@).tables);
        proof {
            crate::store::model::lemma_effect_wf(old(self)@, statement@);
        }
    }

    /// Submits one action. With `fault` set the store fails as a server
    /// out of reach would: nothing is applied and the reply says so.
    pub fn submit(&mut self, action: &Action, fault: bool) -> (reply: StoreReply)
        requires
            old(self).wf(),
        ensures
            (final(self)@, reply@) == old(self)@.step(action@, fault),
            final(self).wf(),
    {
        if fault {
            return StoreReply::Failed;
        }
        match action {
            Action::Single(statement) => {
                if !self.accepts(statement) {
                    return StoreReply::Failed;
                }
                let reply = self.answer(statement);
                self.apply(statement);
                reply
            },
            Action::LoggedBatch(batch) => {
                let ghost list = statements(batch@);
                let mut i: usize = 0;
                while i < batch.len()
                    invariant
                        i <= batch.len(),
                        list == statements(batch@),
                        *self == *old(self),
                        old(self).wf(),
                        !fault,
                        action@ == ActionView::LoggedBatch(list),
                        forall|j: int|
                            0 <= j < i ==> (#[trigger] list[j]).is_row_write() && self@.accepts(
                                list[j],
                            ),
                    decreases batch.len() - i,
                {
                    assert(list[i as int] == batch[i as int]@);
                    if !batch[i].is_row_write() || !self.accepts(&batch[i]) {
                        return StoreReply::Failed;
                    }
                    i += 1;
                }
                let mut i: usize = 0;
                assert(list.take(0) =~= Seq::<StatementView>::empty());
                while i < batch.len()
                    invariant
                        i <= batch.len(),
                        list == statements(batch@),
                        old(self)@.accepts_all(list),
                        self.wf(),
                        self@ == old(self)@.effect_all(list.take(i as int)),
                        forall|kind: EntityKind|
                            (#[trigger] self@.table(kind)).created == old(self)@.table(kind).created
                                && self@.table(kind).indexes == old(self)@.table(kind).indexes,
                    decreases batch.len() - i,
                {
                    let ghost before = self@;
                    assert(list[i as int] == batch[i as int]@);
                    assert(list.take(i as int + 1).drop_last() =~= list.take(i as int));
                    assert(list.take(i as int + 1).last() == list[i as int]);
                    assert(before.table(list[i as int].kind()).created == old(self)@.table(
                        list[i as int].kind(),
                    ).created);
                    self.apply(&batch[i]);
                    assert forall|kind: EntityKind|
                        (#[trigger] self@.table(kind)).created == old(self)@.table(kind).created
                            && self@.table(kind).indexes == old(self)@.table(kind).indexes by {
                        assert(before.table(kind).created == old(self)@.table(kind).created);
                    }
                    i += 1;
                }
                assert(list.take(batch.len() as int) =~= list);
                StoreReply::Applied
            },
        }
    }

    fn answer(&self, statement: &Statement) -> (reply: StoreReply)
        ensures
            reply@ == self@.answer(statement@),
    {
        self.table(statement.kind()).answer(statement)
    }
}

} // verus!
