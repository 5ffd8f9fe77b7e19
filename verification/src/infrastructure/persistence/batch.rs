//! List mutations on one row, gathered into one logged batch.

use crate::common::types::{clone_texts, texts};
use crate::store::schema::{layout, EntityKind};
use crate::store::statement::{statements, Action, ActionView, Statement, StatementView};
use crate::store::value::{CqlValueView, Row};
use vstd::prelude::*;

verus! {

/// Whether every statement is a list mutation on the row with the given key
/// in the table of the given entity.
pub open spec fn mutations_of(
    list: Seq<StatementView>,
    kind: EntityKind,
    key: Seq<CqlValueView>,
) -> bool {
    forall|i: int|
        0 <= i < list.len() ==> match #[trigger] list[i] {
            StatementView::ListAppend { kind: k, key: on, .. } => k == kind && on == key,
            StatementView::ListRemove { kind: k, key: on, .. } => k == kind && on == key,
            _ => false,
        }
}

/// Gathers appends to and removals from the list columns of one row. The
/// mutations are structural: none reads the list before it writes. They are
/// submitted together, as one logged batch, so that the store applies all
/// of them or none.
pub struct BatchMutator {
    kind: EntityKind,
    key: Row,
    list: Vec<Statement>,
}

impl BatchMutator {
    /// The entity whose table the batch addresses.
    pub closed spec fn kind(&self) -> EntityKind {
        self.kind
    }

    /// The key of the row the batch addresses.
    pub closed spec fn key(&self) -> Seq<CqlValueView> {
        self.key@
    }

    /// The mutations gathered so far, in the order they were asked for.
    pub closed spec fn pending(&self) -> Seq<StatementView> {
        statements(self.list@)
    }

    /// A batch without mutations on the row with the given key.
    pub fn new(kind: EntityKind, key: Row) -> (batch: BatchMutator)
        ensures
            batch.kind() == kind,
            batch.key() == key@,
            batch.pending() == Seq::<StatementView>::empty(),
    {
        let batch = BatchMutator { kind, key, list: Vec::new() };
        assert(batch.pending() =~= Seq::<StatementView>::empty());
        batch
    }

    /// Asks for values to be appended to a list column.
    pub fn push(&mut self, column: usize, values: &Vec<String>)
        ensures
            final(self).kind() == old(self).kind(),
            final(self).key() == old(self).key(),
            final(self).pending() == old(self).pending().push(
                StatementView::ListAppend {
                    kind: old(self).kind(),
                    key: old(self).key(),
                    column: column as int,
                    values: texts(values@),
                },
            ),
    {
        let statement = Statement::ListAppend {
            kind: self.kind,
            key: self.key.duplicate(),
            column,
            values: clone_texts(values),
        };
        let ghost before = statements(self.list@);
        self.list.push(statement);
        assert(statements(self.list@) =~= before.push(statement@));
    }

    /// Asks for every occurrence of the values to be removed from a list
    /// column.
    pub fn pop(&mut self, column: usize, values: &Vec<String>)
        ensures
            final(self).kind() == old(self).kind(),
            final(self).key() == old(self).key(),
            final(self).pending() == old(self).pending().push(
                StatementView::ListRemove {
                    kind: old(self).kind(),
                    key: old(self).key(),
                    column: column as int,
                    values: texts(values@),
                },
            ),
    {
        let statement = Statement::ListRemove {
            kind: self.kind,
            key: self.key.duplicate(),
            column,
            values: clone_texts(values),
        };
        let ghost before = statements(self.list@);
        self.list.push(statement);
        assert(statements(self.list@) =~= before.push(statement@));
    }

    /// The one action that submits everything gathered.
    pub fn into_action(self) -> (action: Action)
        ensures
            action@ == ActionView::LoggedBatch(self.pending()),
    {
        Action::LoggedBatch(self.list)
    }
}

/// A batch of list mutations on one row stays within that row's partition.
pub proof fn lemma_one_partition(list: Seq<StatementView>, kind: EntityKind, key: Seq<CqlValueView>)
    requires
        mutations_of(list, kind, key),
    ensures
        forall|i: int|
            0 <= i < list.len() ==> (#[trigger] list[i]).is_row_write() && list[i].kind() == kind
                && list[i].partition() == key.take(layout(kind).partition_len as int),
{
}

} // verus!
