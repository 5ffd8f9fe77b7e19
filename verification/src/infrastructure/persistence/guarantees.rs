//! What the repositories guarantee of a store that behaves as the model
//! says, whether it applies an action or fails it.

use crate::common::result::AppError;
use crate::infrastructure::persistence::batch::mutations_of;
use crate::infrastructure::persistence::repository::{partition_result, row_result};
use crate::store::entity::Entity;
use crate::store::model::{
    arrange, holds, leaves_rest, lemma_append_list, lemma_arrange, lemma_effect_all_wf,
    lemma_effect_wf, lemma_matching_finds, lemma_matching_none, lemma_matching_rows,
    lemma_remove_list, lemma_rows_width, lemma_table_keeps_keys,
    lemma_table_mutation_leaves_rest, lemma_upsert_then_read, lemma_with_value_finds,
    lemma_with_value_rows, lemma_without, lemma_without_absent, lemma_without_concat, list_at,
    matching, mutated_column, mutated_key, ordered, with_value, without, StoreState,
};
use crate::store::schema::{layout, lemma_layout_wf, EntityKind};
use crate::store::statement::{typed_key, ActionView, ReplyView, StatementView};
use crate::store::value::{starts_with, CqlValueView};
use vstd::prelude::*;

verus! {

/// The insert of an entity, as the repository composes it.
pub open spec fn insert_of<E: Entity>(entity: E) -> ActionView {
    ActionView::Single(StatementView::Insert { kind: E::kind(), row: entity.row() })
}

/// The key of an entity's row.
pub open spec fn key_of<E: Entity>(entity: E) -> Seq<CqlValueView> {
    entity.row().take(layout(E::kind()).key_len() as int)
}

/// The lookup by primary key, as the repository composes it.
pub open spec fn find_row_of<E: Entity>(key: Seq<CqlValueView>) -> ActionView {
    ActionView::Single(StatementView::SelectRow { kind: E::kind(), key })
}

/// The lookup by partition key, as the repository composes it.
pub open spec fn find_partition_of<E: Entity>(key: Seq<CqlValueView>) -> ActionView {
    ActionView::Single(StatementView::SelectPartition { kind: E::kind(), key })
}

/// Round trip. Once the store has applied the insert of an entity, a lookup
/// by the entity's primary key that the store answers yields that entity,
/// equal in every column. A lookup the store fails is an internal error.
/// Neither changes what the store holds after the insert.
pub proof fn lemma_insert_then_find<E: Entity>(
    state: StoreState,
    entity: E,
    insert_fault: bool,
    find_fault: bool,
)
    requires
        state.wf(),
    ensures
        ({
            let (stored, written) = state.step(insert_of(entity), insert_fault);
            let (after, reply) = stored.step(find_row_of::<E>(key_of(entity)), find_fault);
            &&& after == stored
            &&& written is Applied <==> !insert_fault && state.table(E::kind()).created
            &&& written is Applied && !find_fault ==> row_result::<E>(key_of(entity), reply)
                == Ok::<Seq<CqlValueView>, AppError>(entity.row())
            &&& written is Applied && find_fault ==> row_result::<E>(key_of(entity), reply)
                == Err::<Seq<CqlValueView>, AppError>(AppError::InternalServerError)
        }),
{
    let kind = E::kind();
    let n = layout(kind).key_len() as int;
    let row = entity.row();
    let key = key_of(entity);
    entity.lemma_row();
    lemma_layout_wf(kind);
    let insert = StatementView::Insert { kind, row };
    let (stored, written) = state.step(insert_of(entity), insert_fault);
    let find = StatementView::SelectRow { kind, key };
    let (after, reply) = stored.step(find_row_of::<E>(key), find_fault);
    assert(stored.tables.update(kind.ordinal(), stored.table(kind)) =~= stored.tables);
    if !insert_fault && state.table(kind).created {
        assert(state.accepts(insert));
        assert(EntityKind::at(kind.ordinal()) == kind);
        lemma_rows_width(state.table(kind), kind);
        lemma_upsert_then_read(state.table(kind).rows, row, n);
        assert(typed_key(kind, key, n)) by {
            assert forall|i: int| 0 <= i < n implies key[i] != CqlValueView::Null && (
            #[trigger] key[i]).fits(layout(kind).columns[i].kind) by {
                assert(key[i] == row[i]);
            }
        }
        if !find_fault {
            assert(stored.accepts(find));
            assert(reply == ReplyView::Rows(seq![row]));
            assert(row.take(key.len() as int) =~= key);
        }
    }
}

/// Empty partition. Where no row of a created table lies in a partition, the
/// store answers a lookup of that partition with no rows, and the repository
/// reports not found.
pub proof fn lemma_empty_partition_not_found<E: Entity>(
    state: StoreState,
    key: Seq<CqlValueView>,
)
    requires
        state.wf(),
        state.table(E::kind()).created,
        key.len() == layout(E::kind()).partition_len,
        typed_key(E::kind(), key, key.len() as int),
        forall|i: int|
            0 <= i < state.table(E::kind()).rows.len() ==> !starts_with(
                #[trigger] state.table(E::kind()).rows[i],
                key,
            ),
    ensures
        state.step(find_partition_of::<E>(key), false).1 == ReplyView::Rows(Seq::empty()),
        partition_result::<E>(key, state.step(find_partition_of::<E>(key), false).1) == Err::<
            Seq<Seq<CqlValueView>>,
            AppError,
        >(AppError::NotFound(E::kind())),
{
    lemma_matching_none(state.table(E::kind()).rows, key);
}

/// Clustering order. The rows the store answers a lookup of a partition with
/// are ordered by the clustering key: latest first where the table is kept
/// in descending order.
pub proof fn lemma_partition_order<E: Entity>(
    state: StoreState,
    key: Seq<CqlValueView>,
    fault: bool,
)
    ensures
        state.step(find_partition_of::<E>(key), fault).1 matches ReplyView::Rows(list)
            ==> ordered(E::kind(), list),
{
    lemma_arrange(E::kind(), matching(state.table(E::kind()).rows, key));
}

/// Partition isolation, on the side of the store: every row it answers a
/// lookup of a partition with lies in that partition.
pub proof fn lemma_partition_answer<E: Entity>(
    state: StoreState,
    key: Seq<CqlValueView>,
    fault: bool,
)
    ensures
        state.step(find_partition_of::<E>(key), fault).1 matches ReplyView::Rows(list)
            ==> forall|i: int| 0 <= i < list.len() ==> starts_with(#[trigger] list[i], key),
{
    let held = state.table(E::kind()).rows;
    lemma_matching_rows(held, key);
    lemma_arrange(E::kind(), matching(held, key));
    let found = matching(held, key);
    let list = arrange(E::kind(), found);
    assert forall|i: int| 0 <= i < list.len() implies starts_with(#[trigger] list[i], key) by {
        assert(list.contains(list[i]));
        let k = choose|k: int| 0 <= k < found.len() && found[k] == list[i];
        assert(starts_with(found[k], key));
    }
}

/// Partition completeness, on the side of the store: every row of the table
/// that lies in the partition is among the rows it answers a lookup of that
/// partition with, and it answers with as many rows as lie there.
pub proof fn lemma_partition_answer_complete<E: Entity>(state: StoreState, key: Seq<CqlValueView>)
    requires
        state.accepts(StatementView::SelectPartition { kind: E::kind(), key }),
    ensures
        state.step(find_partition_of::<E>(key), false).1 matches ReplyView::Rows(list) && {
            &&& list.len() == matching(state.table(E::kind()).rows, key).len()
            &&& forall|i: int|
                0 <= i < state.table(E::kind()).rows.len() && starts_with(
                    #[trigger] state.table(E::kind()).rows[i],
                    key,
                ) ==> list.contains(state.table(E::kind()).rows[i])
        },
{
    let held = state.table(E::kind()).rows;
    let found = matching(held, key);
    let list = arrange(E::kind(), found);
    lemma_arrange(E::kind(), found);
    assert forall|i: int|
        0 <= i < held.len() && starts_with(#[trigger] held[i], key) implies list.contains(
        held[i],
    ) by {
        lemma_matching_finds(held, key, i);
    }
}

/// The lookup by indexed column, as the repository composes it.
pub open spec fn find_by_index_of<E: Entity>(column: int, value: CqlValueView) -> ActionView {
    ActionView::Single(StatementView::SelectByIndex { kind: E::kind(), column, value })
}

/// A lookup by indexed column is answered with the rows that hold the value
/// in that column, and with every one of them.
pub proof fn lemma_index_answer<E: Entity>(state: StoreState, column: int, value: CqlValueView)
    requires
        state.accepts(StatementView::SelectByIndex { kind: E::kind(), column, value }),
    ensures
        state.step(find_by_index_of::<E>(column, value), false).1 matches ReplyView::Rows(list) && {
            &&& forall|i: int|
                0 <= i < list.len() ==> 0 <= column < (#[trigger] list[i]).len() && list[i][column]
                    == value
            &&& forall|i: int|
                0 <= i < state.table(E::kind()).rows.len() && 0 <= column < state.table(
                    E::kind(),
                ).rows[i].len() && state.table(E::kind()).rows[i][column] == value
                    ==> list.contains(#[trigger] state.table(E::kind()).rows[i])
        },
{
    let held = state.table(E::kind()).rows;
    lemma_with_value_rows(held, column, value);
    let found = with_value(held, column, value);
    assert forall|i: int|
        0 <= i < held.len() && 0 <= column < held[i].len() && held[i][column]
            == value implies found.contains(#[trigger] held[i]) by {
        lemma_with_value_finds(held, column, value, i);
    }
}

/// After a removal that the store applies, the list holds none of the values
/// removed, however often one occurred, and every other text it held.
pub proof fn lemma_pop_takes_every_occurrence(
    state: StoreState,
    kind: EntityKind,
    key: Seq<CqlValueView>,
    column: int,
    values: Seq<Seq<char>>,
)
    requires
        state.wf(),
        state.accepts(StatementView::ListRemove { kind, key, column, values }),
    ensures
        ({
            let (after, reply) = state.step(pop_of(kind, key, column, values), false);
            let before = list_at(state.table(kind).rows, key, column);
            let seen = list_at(after.table(kind).rows, key, column);
            &&& reply is Applied
            &&& forall|text: Seq<char>| #[trigger]
                seen.contains(text) <==> before.contains(text) && !values.contains(text)
        }),
{
    let remove = StatementView::ListRemove { kind, key, column, values };
    lemma_layout_wf(kind);
    assert(EntityKind::at(kind.ordinal()) == kind);
    assert(seq![remove][0] == remove);
    assert(state.accepts_all(seq![remove]));
    assert(seq![remove].drop_last() =~= Seq::<StatementView>::empty());
    assert(state.effect_all(seq![remove]) == state.effect(remove)) by {
        assert(state.effect_all(seq![remove].drop_last()) == state);
        assert(seq![remove].last() == remove);
    }
    lemma_rows_width(state.table(kind), kind);
    lemma_remove_list(state.table(kind).rows, key, column, values, layout(kind).width() as int);
    lemma_without(list_at(state.table(kind).rows, key, column), values);
}

/// The append of values to a list column, submitted on its own.
pub open spec fn push_of(
    kind: EntityKind,
    key: Seq<CqlValueView>,
    column: int,
    values: Seq<Seq<char>>,
) -> ActionView {
    ActionView::LoggedBatch(seq![StatementView::ListAppend { kind, key, column, values }])
}

/// The removal of values from a list column, submitted on its own.
pub open spec fn pop_of(
    kind: EntityKind,
    key: Seq<CqlValueView>,
    column: int,
    values: Seq<Seq<char>>,
) -> ActionView {
    ActionView::LoggedBatch(seq![StatementView::ListRemove { kind, key, column, values }])
}

/// Push, then pop. Appending a value to a list that does not hold it and
/// then removing it, in two separate calls that the store both applies,
/// leaves the list as it was. (A removal takes every occurrence: with the
/// value in the list beforehand, those occurrences would go as well.)
pub proof fn lemma_push_then_pop(
    state: StoreState,
    kind: EntityKind,
    key: Seq<CqlValueView>,
    column: int,
    value: Seq<char>,
)
    requires
        state.wf(),
        state.table(kind).created,
        push_of(kind, key, column, seq![value]).wf(),
        !list_at(state.table(kind).rows, key, column).contains(value),
    ensures
        ({
            let (pushed, first) = state.step(push_of(kind, key, column, seq![value]), false);
            let (popped, second) = pushed.step(pop_of(kind, key, column, seq![value]), false);
            &&& first is Applied
            &&& second is Applied
            &&& list_at(pushed.table(kind).rows, key, column) == list_at(
                state.table(kind).rows,
                key,
                column,
            ).push(value)
            &&& list_at(popped.table(kind).rows, key, column) == list_at(
                state.table(kind).rows,
                key,
                column,
            )
        }),
{
    let values = seq![value];
    let append = StatementView::ListAppend { kind, key, column, values };
    let remove = StatementView::ListRemove { kind, key, column, values };
    let width = layout(kind).width() as int;
    let before = list_at(state.table(kind).rows, key, column);
    lemma_layout_wf(kind);
    assert(EntityKind::at(kind.ordinal()) == kind);
    assert(seq![append][0] == append);
    assert(seq![remove][0] == remove);
    assert(state.accepts_all(seq![append]));
    assert(seq![append].drop_last() =~= Seq::<StatementView>::empty());
    assert(state.effect_all(seq![append]) == state.effect(append)) by {
        assert(state.effect_all(seq![append].drop_last()) == state);
        assert(seq![append].last() == append);
    }
    let pushed = state.effect(append);
    lemma_effect_wf(state, append);
    lemma_rows_width(state.table(kind), kind);
    lemma_append_list(state.table(kind).rows, key, column, values, width);
    assert(pushed.table(kind).created);
    assert(pushed.accepts_all(seq![remove]));
    assert(seq![remove].drop_last() =~= Seq::<StatementView>::empty());
    assert(pushed.effect_all(seq![remove]) == pushed.effect(remove)) by {
        assert(pushed.effect_all(seq![remove].drop_last()) == pushed);
        assert(seq![remove].last() == remove);
    }
    lemma_rows_width(pushed.table(kind), kind);
    lemma_remove_list(pushed.table(kind).rows, key, column, values, width);
    lemma_without_concat(before, values, values);
    assert forall|i: int| 0 <= i < before.len() implies !values.contains(#[trigger] before[i]) by {
        if values.contains(before[i]) {
            let k = choose|k: int| 0 <= k < values.len() && values[k] == before[i];
            assert(before.contains(value));
        }
    }
    lemma_without_absent(before, values);
    assert(without(values, values) =~= Seq::<Seq<char>>::empty()) by {
        reveal_with_fuel(without, 2);
        assert(values.drop_last() =~= Seq::<Seq<char>>::empty());
        assert(values.contains(values.last())) by {
            assert(values[0] == values.last());
        }
    }
    assert(before + Seq::<Seq<char>>::empty() =~= before);
    assert(before + values =~= before.push(value));
}

/// All or nothing. Whatever a logged batch holds and whether or not the
/// store fails, afterwards either every statement of the batch has been
/// applied, in order, or the store is as it was; the reply tells which.
pub proof fn lemma_batch_all_or_nothing(state: StoreState, batch: Seq<StatementView>, fault: bool)
    ensures
        ({
            let (after, reply) = state.step(ActionView::LoggedBatch(batch), fault);
            ||| reply == ReplyView::Applied && after == state.effect_all(batch)
            ||| reply == ReplyView::Failed && after == state
        }),
{
}

/// A change that asks for both an append and a removal on a list never
/// leaves exactly one of them behind: a read afterwards sees the list with
/// both applied, or the list as it was.
pub proof fn lemma_push_and_pop_together(
    state: StoreState,
    kind: EntityKind,
    key: Seq<CqlValueView>,
    column: int,
    pushed: Seq<Seq<char>>,
    popped: Seq<Seq<char>>,
    fault: bool,
)
    requires
        state.wf(),
    ensures
        ({
            let batch = seq![
                StatementView::ListAppend { kind, key, column, values: pushed },
                StatementView::ListRemove { kind, key, column, values: popped },
            ];
            let before = list_at(state.table(kind).rows, key, column);
            let (after, reply) = state.step(ActionView::LoggedBatch(batch), fault);
            let seen = list_at(after.table(kind).rows, key, column);
            ||| reply == ReplyView::Applied && seen == without(before + pushed, popped)
            ||| reply == ReplyView::Failed && seen == before
        }),
{
    let append = StatementView::ListAppend { kind, key, column, values: pushed };
    let remove = StatementView::ListRemove { kind, key, column, values: popped };
    let batch = seq![append, remove];
    let width = layout(kind).width() as int;
    if !fault && state.accepts_all(batch) {
        assert(batch[0] == append && batch[1] == remove);
        assert(state.accepts(append) && state.accepts(remove));
        lemma_layout_wf(kind);
        assert(EntityKind::at(kind.ordinal()) == kind);
        assert(batch.drop_last() =~= seq![append]);
        assert(seq![append].drop_last() =~= Seq::<StatementView>::empty());
        assert(state.effect_all(seq![append]) == state.effect(append)) by {
            assert(state.effect_all(seq![append].drop_last()) == state);
            assert(seq![append].last() == append);
        }
        assert(state.effect_all(batch) == state.effect(append).effect(remove)) by {
            assert(batch.last() == remove);
        }
        let middle = state.effect(append);
        lemma_effect_wf(state, append);
        lemma_rows_width(state.table(kind), kind);
        lemma_append_list(state.table(kind).rows, key, column, pushed, width);
        lemma_rows_width(middle.table(kind), kind);
        lemma_remove_list(middle.table(kind).rows, key, column, popped, width);
    }
}

/// Nothing is ever deleted. Whatever the action and whether or not the store
/// fails, a key that a table holds before, it holds afterwards: a row can be
/// overwritten and its lists can change, but its key stays, and so does the
/// row.
pub proof fn lemma_never_deleted(
    state: StoreState,
    action: ActionView,
    fault: bool,
    kind: EntityKind,
    key: Seq<CqlValueView>,
)
    requires
        state.wf(),
        key.len() <= layout(kind).key_len(),
        holds(state.table(kind).rows, key),
    ensures
        holds(state.step(action, fault).0.table(kind).rows, key),
{
    match action {
        ActionView::Single(statement) => {
            if !fault && state.accepts(statement) {
                lemma_effect_keeps_keys(state, statement, kind, key);
            }
        },
        ActionView::LoggedBatch(batch) => {
            if !fault && state.accepts_all(batch) {
                lemma_batch_keeps_keys(state, batch, kind, key);
            }
        },
    }
}

/// An accepted statement keeps every key of every table.
pub proof fn lemma_effect_keeps_keys(
    state: StoreState,
    statement: StatementView,
    kind: EntityKind,
    key: Seq<CqlValueView>,
)
    requires
        state.wf(),
        state.accepts(statement),
        key.len() <= layout(kind).key_len(),
        holds(state.table(kind).rows, key),
    ensures
        holds(state.effect(statement).table(kind).rows, key),
{
    assert(EntityKind::at(kind.ordinal()) == kind);
    assert(EntityKind::at(statement.kind().ordinal()) == statement.kind());
    if statement.kind() == kind {
        lemma_table_keeps_keys(state.table(kind), statement, key);
    } else {
        assert(state.effect(statement).table(kind) == state.table(kind));
    }
}

/// An accepted batch keeps every key of every table.
pub proof fn lemma_batch_keeps_keys(
    state: StoreState,
    batch: Seq<StatementView>,
    kind: EntityKind,
    key: Seq<CqlValueView>,
)
    requires
        state.wf(),
        state.accepts_all(batch),
        key.len() <= layout(kind).key_len(),
        holds(state.table(kind).rows, key),
    ensures
        holds(state.effect_all(batch).table(kind).rows, key),
    decreases batch.len(),
{
    if batch.len() > 0 {
        let front = batch.drop_last();
        assert forall|i: int| 0 <= i < front.len() implies (#[trigger] front[i]).is_row_write()
            && state.accepts(front[i]) by {
            assert(front[i] == batch[i]);
        }
        lemma_batch_keeps_keys(state, front, kind, key);
        lemma_effect_all_wf(state, front);
        let before = state.effect_all(front);
        let last = batch.last();
        assert(last == batch[batch.len() - 1]);
        assert(before.table(last.kind()).created == state.table(last.kind()).created);
        assert(before.accepts(last));
        lemma_effect_keeps_keys(before, last, kind, key);
    }
}

/// Whether a statement of the batch names the column.
pub open spec fn names_column(batch: Seq<StatementView>, column: int) -> bool {
    exists|k: int| 0 <= k < batch.len() && mutated_column(#[trigger] batch[k]) == column
}

/// What a list mutation leaves alone. An accepted append or removal changes
/// the list column it names in the row it names; every other table, every
/// row with another key, and every other column of that row are as before.
pub proof fn lemma_list_mutation_leaves_rest(state: StoreState, statement: StatementView)
    requires
        state.wf(),
        state.accepts(statement),
        statement is ListAppend || statement is ListRemove,
    ensures
        forall|other: EntityKind|
            other != statement.kind() ==> #[trigger] state.effect(statement).table(other)
                == state.table(other),
        leaves_rest(
            state.table(statement.kind()),
            state.effect(statement).table(statement.kind()),
            mutated_key(statement),
            mutated_column(statement),
        ),
{
    let kind = statement.kind();
    assert(EntityKind::at(kind.ordinal()) == kind);
    lemma_table_mutation_leaves_rest(state.table(kind), statement);
}

/// What a batch of list mutations on one row leaves alone, once the store
/// has applied it: every other table, every row with another key, and every
/// column of the row that no statement of the batch names.
pub proof fn lemma_batch_leaves_rest(
    state: StoreState,
    batch: Seq<StatementView>,
    kind: EntityKind,
    key: Seq<CqlValueView>,
)
    requires
        state.wf(),
        state.accepts_all(batch),
        mutations_of(batch, kind, key),
    ensures
        ({
            let before = state.table(kind);
            let after = state.effect_all(batch).table(kind);
            &&& forall|other: EntityKind|
                other != kind ==> #[trigger] state.effect_all(batch).table(other) == state.table(
                    other,
                )
            &&& after.created == before.created
            &&& after.indexes == before.indexes
            &&& after.rows.len() >= before.rows.len()
            &&& forall|i: int|
                0 <= i < before.rows.len() && !starts_with(#[trigger] before.rows[i], key)
                    ==> after.rows[i] == before.rows[i]
            &&& forall|i: int|
                0 <= i < before.rows.len() && starts_with(#[trigger] before.rows[i], key) ==> {
                    &&& after.rows[i].len() == before.rows[i].len()
                    &&& starts_with(after.rows[i], key)
                }
            &&& forall|i: int, c: int|
                0 <= i < before.rows.len() && 0 <= c < before.rows[i].len() && !names_column(
                    batch,
                    c,
                ) ==> #[trigger] after.rows[i][c] == before.rows[i][c]
        }),
    decreases batch.len(),
{
    assert(EntityKind::at(kind.ordinal()) == kind);
    if batch.len() > 0 {
        let front = batch.drop_last();
        let last = batch.last();
        assert(last == batch[batch.len() - 1]);
        assert forall|i: int| 0 <= i < front.len() implies (#[trigger] front[i]).is_row_write()
            && state.accepts(front[i]) by {
            assert(front[i] == batch[i]);
        }
        assert(mutations_of(front, kind, key)) by {
            assert forall|i: int| 0 <= i < front.len() implies match #[trigger] front[i] {
                StatementView::ListAppend { kind: k, key: on, .. } => k == kind && on == key,
                StatementView::ListRemove { kind: k, key: on, .. } => k == kind && on == key,
                _ => false,
            } by {
                assert(front[i] == batch[i]);
            }
        }
        lemma_batch_leaves_rest(state, front, kind, key);
        lemma_effect_all_wf(state, front);
        let middle = state.effect_all(front);
        assert(last.kind() == kind && mutated_key(last) == key);
        assert(middle.table(kind).created == state.table(kind).created);
        assert(middle.accepts(last));
        lemma_list_mutation_leaves_rest(middle, last);
        let before = state.table(kind);
        let between = middle.table(kind);
        let after = state.effect_all(batch).table(kind);
        assert(after == middle.effect(last).table(kind));
        assert forall|other: EntityKind| other != kind implies #[trigger] state.effect_all(
            batch,
        ).table(other) == state.table(other) by {
            assert(middle.effect(last).table(other) == middle.table(other));
        }
        assert forall|i: int|
            0 <= i < before.rows.len() && !starts_with(
                #[trigger] before.rows[i],
                key,
            ) implies after.rows[i] == before.rows[i] by {
            assert(between.rows[i] == before.rows[i]);
            assert(!starts_with(between.rows[i], key));
        }
        assert forall|i: int|
            0 <= i < before.rows.len() && starts_with(#[trigger] before.rows[i], key) implies {
            &&& after.rows[i].len() == before.rows[i].len()
            &&& starts_with(after.rows[i], key)
        } by {
            assert(starts_with(between.rows[i], key));
        }
        assert forall|i: int, c: int|
            0 <= i < before.rows.len() && 0 <= c < before.rows[i].len() && !names_column(
                batch,
                c,
            ) implies #[trigger] after.rows[i][c] == before.rows[i][c] by {
            assert(mutated_column(batch[batch.len() - 1]) != c);
            if names_column(front, c) {
                let k = choose|k: int|
                    0 <= k < front.len() && mutated_column(#[trigger] front[k]) == c;
                assert(front[k] == batch[k]);
            }
            assert(between.rows[i][c] == before.rows[i][c]);
            if starts_with(before.rows[i], key) {
                assert(starts_with(between.rows[i], key));
                assert(between.rows[i].len() == before.rows[i].len());
            } else {
                assert(between.rows[i] == before.rows[i]);
            }
            assert(after.rows[i][c] == between.rows[i][c]);
        }
    }
}

} // verus!
