//! The generic repository.
//!
//! Each operation comes as two functions. The one named `.._statement`
//! composes what is to be submitted; the other takes what the store handed
//! back and decides the result. Between the two the caller holds the
//! session, submits exactly that action and releases the session again.

use crate::common::result::{AppError, AppResult};
use crate::store::entity::{all_readable, canonical_rows, entity_rows, Entity};
use crate::store::schema::{layout, lemma_layout_wf};
use crate::store::statement::{Action, ActionView, ReplyView, Statement, StatementView, StoreReply};
use crate::store::value::{rows, starts_with, CqlValue, CqlValueView, Row};
use core::marker::PhantomData;
use vstd::prelude::*;

verus! {

/// Whether every row starts with the key.
pub open spec fn all_start_with(list: Seq<Seq<CqlValueView>>, key: Seq<CqlValueView>) -> bool {
    forall|i: int| 0 <= i < list.len() ==> starts_with(#[trigger] list[i], key)
}

/// Whether every row holds the value in the column.
pub open spec fn all_hold(list: Seq<Seq<CqlValueView>>, column: int, value: CqlValueView) -> bool {
    forall|i: int|
        0 <= i < list.len() ==> 0 <= column < (#[trigger] list[i]).len() && list[i][column]
            == value
}

/// What a write comes to: success where the store applied it, an internal
/// error in every other case.
pub open spec fn write_result(reply: ReplyView) -> Result<(), AppError> {
    match reply {
        ReplyView::Applied => Ok(()),
        _ => Err(AppError::InternalServerError),
    }
}

/// What a lookup by partition key comes to. No row at all means not found.
/// A row that cannot be read, or that belongs to another partition, makes
/// the answer malformed.
pub open spec fn partition_result<E: Entity>(key: Seq<CqlValueView>, reply: ReplyView) -> Result<
    Seq<Seq<CqlValueView>>,
    AppError,
> {
    match reply {
        ReplyView::Rows(list) => {
            if list.len() == 0 {
                Err(AppError::NotFound(E::kind()))
            } else if all_readable::<E>(list) && all_start_with(list, key) {
                Ok(canonical_rows::<E>(list))
            } else {
                Err(AppError::InternalServerError)
            }
        },
        _ => Err(AppError::InternalServerError),
    }
}

/// What a lookup by primary key comes to: the one row with that key, not
/// found where there is none, an internal error for anything else.
pub open spec fn row_result<E: Entity>(key: Seq<CqlValueView>, reply: ReplyView) -> Result<
    Seq<CqlValueView>,
    AppError,
> {
    match reply {
        ReplyView::Rows(list) => {
            if list.len() == 0 {
                Err(AppError::NotFound(E::kind()))
            } else if list.len() == 1 && E::readable(list[0]) && starts_with(list[0], key) {
                Ok(E::canonical(list[0]))
            } else {
                Err(AppError::InternalServerError)
            }
        },
        _ => Err(AppError::InternalServerError),
    }
}

/// What a lookup by indexed column comes to. An empty answer is a result
/// like any other.
pub open spec fn index_result<E: Entity>(
    column: int,
    value: CqlValueView,
    reply: ReplyView,
) -> Result<Seq<Seq<CqlValueView>>, AppError> {
    match reply {
        ReplyView::Rows(list) => {
            if all_readable::<E>(list) && all_hold(list, column, value) {
                Ok(canonical_rows::<E>(list))
            } else {
                Err(AppError::InternalServerError)
            }
        },
        _ => Err(AppError::InternalServerError),
    }
}

/// Whether a result holds the entities, or the error, that are expected.
pub open spec fn same_outcome<E: Entity>(
    r: Result<Vec<E>, AppError>,
    expected: Result<Seq<Seq<CqlValueView>>, AppError>,
) -> bool {
    match r {
        Ok(entities) => expected == Ok::<Seq<Seq<CqlValueView>>, AppError>(entity_rows(entities@)),
        Err(e) => expected == Err::<Seq<Seq<CqlValueView>>, AppError>(e),
    }
}

/// Whether a result holds the entity, or the error, that is expected.
pub open spec fn same_single_outcome<E: Entity>(
    r: Result<E, AppError>,
    expected: Result<Seq<CqlValueView>, AppError>,
) -> bool {
    match r {
        Ok(entity) => expected == Ok::<Seq<CqlValueView>, AppError>(entity.row()),
        Err(e) => expected == Err::<Seq<CqlValueView>, AppError>(e),
    }
}

/// Reads every row, or none if one of them cannot be read.
pub fn read_rows<E: Entity>(list: &Vec<Row>) -> (r: Option<Vec<E>>)
    ensures
        r is Some <==> all_readable::<E>(rows(list@)),
        r matches Some(entities) ==> entity_rows(entities@) == canonical_rows::<E>(rows(list@)),
{
    let mut entities: Vec<E> = Vec::new();
    let mut i: usize = 0;
    while i < list.len()
        invariant
            i <= list.len(),
            entities.len() == i,
            forall|j: int| 0 <= j < i ==> E::readable(#[trigger] rows(list@)[j]),
            forall|j: int| 0 <= j < i ==> (#[trigger] entities[j]).row() == E::canonical(list[j]@),
        decreases list.len() - i,
    {
        assert(rows(list@)[i as int] == list[i as int]@);
        match E::from_row(&list[i]) {
            Some(entity) => {
                entities.push(entity);
            },
            None => {
                return None;
            },
        }
        i += 1;
    }
    assert(entity_rows(entities@) =~= canonical_rows::<E>(rows(list@)));
    Some(entities)
}

/// Whether every row starts with the key.
pub fn rows_start_with(list: &Vec<Row>, key: &Row) -> (ok: bool)
    ensures
        ok == all_start_with(rows(list@), key@),
{
    let mut i: usize = 0;
    while i < list.len()
        invariant
            i <= list.len(),
            forall|j: int| 0 <= j < i ==> starts_with(#[trigger] rows(list@)[j], key@),
        decreases list.len() - i,
    {
        assert(rows(list@)[i as int] == list[i as int]@);
        if !list[i].starts_with(key) {
            return false;
        }
        i += 1;
    }
    true
}

/// Whether every row holds the value in the column.
pub fn rows_hold(list: &Vec<Row>, column: usize, value: &CqlValue) -> (ok: bool)
    ensures
        ok == all_hold(rows(list@), column as int, value@),
{
    let mut i: usize = 0;
    while i < list.len()
        invariant
            i <= list.len(),
            forall|j: int|
                0 <= j < i ==> 0 <= column < (#[trigger] rows(list@)[j]).len() && rows(
                    list@,
                )[j][column as int] == value@,
        decreases list.len() - i,
    {
        assert(rows(list@)[i as int] == list[i as int]@);
        if column >= list[i].values.len() {
            return false;
        }
        assert(list[i as int]@[column as int] == list[i as int].values[column as int]@);
        if !list[i].values[column].same(value) {
            return false;
        }
        i += 1;
    }
    true
}

/// The repository of one entity type.
pub struct Repository<E: Entity> {
    entity: PhantomData<E>,
}

impl<E: Entity> Repository<E> {
    pub fn new() -> (repository: Self) {
        Repository { entity: PhantomData }
    }

    /// The write of a full row for an entity.
    pub fn insert_statement(&self, entity: &E) -> (action: Action)
        ensures
            action@ == ActionView::Single(
                StatementView::Insert { kind: E::kind(), row: entity.row() },
            ),
            action@.wf(),
    {
        proof {
            entity.lemma_row();
        }
        Action::Single(Statement::Insert { kind: E::entity_kind(), row: entity.to_row() })
    }

    /// The result of an insert: the entity as written, or an internal error
    /// where the store did not apply the write.
    pub fn insert<'e>(&self, entity: &'e E, reply: &StoreReply) -> (r: AppResult<&'e E>)
        ensures
            match r {
                Ok(written) => written == entity && write_result(reply@) is Ok,
                Err(e) => write_result(reply@) == Err::<(), AppError>(e),
            },
    {
        match reply {
            StoreReply::Applied => Ok(entity),
            _ => Err(AppError::InternalServerError),
        }
    }

    /// The overwrite of the full row that has the entity's key.
    pub fn update_statement(&self, entity: &E) -> (action: Action)
        ensures
            action@ == ActionView::Single(
                StatementView::Update { kind: E::kind(), row: entity.row() },
            ),
            action@.wf(),
    {
        proof {
            entity.lemma_row();
        }
        Action::Single(Statement::Update { kind: E::entity_kind(), row: entity.to_row() })
    }

    /// The result of an update: the entity as written, or an internal error
    /// where the store did not apply the write.
    pub fn update(&self, entity: E, reply: &StoreReply) -> (r: AppResult<E>)
        ensures
            match r {
                Ok(written) => written == entity && write_result(reply@) is Ok,
                Err(e) => write_result(reply@) == Err::<(), AppError>(e),
            },
    {
        match reply {
            StoreReply::Applied => Ok(entity),
            _ => Err(AppError::InternalServerError),
        }
    }

    /// The read of every row of the partition with the given key: equality
    /// on all partition-key columns.
    pub fn find_by_partition_key_statement(&self, key: Row) -> (action: Action)
        ensures
            action@ == ActionView::Single(
                StatementView::SelectPartition { kind: E::kind(), key: key@ },
            ),
    {
        Action::Single(Statement::SelectPartition { kind: E::entity_kind(), key })
    }

    /// The result of a lookup by partition key. An empty answer is reported
    /// as not found. No entity of another partition is ever returned.
    pub fn find_by_partition_key(&self, key: &Row, reply: &StoreReply) -> (r: AppResult<Vec<E>>)
        ensures
            same_outcome(r, partition_result::<E>(key@, reply@)),
            r matches Ok(entities) ==> entities.len() > 0,
            r matches Ok(entities) ==> (key@.len() <= layout(E::kind()).key_len() ==> forall|
                i: int,
            | 0 <= i < entities.len() ==> starts_with((#[trigger] entities[i]).row(), key@)),
            reply@ matches ReplyView::Rows(list) && list.len() == 0 ==> r == Err::<
                Vec<E>,
                AppError,
            >(AppError::NotFound(E::kind())),
    {
        match reply {
            StoreReply::Rows(list) => {
                if list.len() == 0 {
                    return Err(E::not_found());
                }
                if !rows_start_with(list, key) {
                    return Err(AppError::InternalServerError);
                }
                match read_rows::<E>(list) {
                    Some(entities) => {
                        proof {
                            lemma_layout_wf(E::kind());
                            let n = layout(E::kind()).key_len() as int;
                            assert(entity_rows(entities@).len() == entities.len());
                            assert(canonical_rows::<E>(rows(list@)).len() == list.len());
                            if key@.len() <= n {
                                assert forall|i: int| 0 <= i < entities.len() implies starts_with(
                                    (#[trigger] entities[i]).row(),
                                    key@,
                                ) by {
                                    let row = rows(list@)[i];
                                    assert(canonical_rows::<E>(rows(list@))[i]
                                        == E::canonical(row));
                                    assert(entity_rows(entities@)[i] == entities[i].row());
                                    E::lemma_canonical(row);
                                    assert(starts_with(row, key@));
                                    lemma_keeps_prefix(E::canonical(row), row, key@, n);
                                }
                            }
                        }
                        Ok(entities)
                    },
                    None => Err(AppError::InternalServerError),
                }
            },
            _ => Err(AppError::InternalServerError),
        }
    }

    /// The read of the one row with the given partition and clustering key:
    /// equality on all key columns.
    pub fn find_by_primary_key_statement(&self, key: Row) -> (action: Action)
        ensures
            action@ == ActionView::Single(StatementView::SelectRow { kind: E::kind(), key: key@ }),
    {
        Action::Single(Statement::SelectRow { kind: E::entity_kind(), key })
    }

    /// The result of a lookup by primary key.
    pub fn find_by_primary_key(&self, key: &Row, reply: &StoreReply) -> (r: AppResult<E>)
        ensures
            same_single_outcome(r, row_result::<E>(key@, reply@)),
    {
        match reply {
            StoreReply::Rows(list) => {
                if list.len() == 0 {
                    return Err(E::not_found());
                }
                assert(rows(list@)[0] == list[0]@);
                if list.len() != 1 || !list[0].starts_with(key) {
                    return Err(AppError::InternalServerError);
                }
                match E::from_row(&list[0]) {
                    Some(entity) => Ok(entity),
                    None => Err(AppError::InternalServerError),
                }
            },
            _ => Err(AppError::InternalServerError),
        }
    }

    /// The read of the rows whose indexed column holds the value: equality
    /// on an indexed column.
    pub fn find_by_secondary_index_statement(&self, column: usize, value: CqlValue) -> (action:
        Action)
        ensures
            action@ == ActionView::Single(
                StatementView::SelectByIndex {
                    kind: E::kind(),
                    column: column as int,
                    value: value@,
                },
            ),
    {
        Action::Single(Statement::SelectByIndex { kind: E::entity_kind(), column, value })
    }

    /// The result of a lookup by indexed column. An empty answer is an empty
    /// list, not an error.
    pub fn find_by_secondary_index(
        &self,
        column: usize,
        value: &CqlValue,
        reply: &StoreReply,
    ) -> (r: AppResult<Vec<E>>)
        ensures
            same_outcome(r, index_result::<E>(column as int, value@, reply@)),
    {
        match reply {
            StoreReply::Rows(list) => {
                if !rows_hold(list, column, value) {
                    return Err(AppError::InternalServerError);
                }
                match read_rows::<E>(list) {
                    Some(entities) => Ok(entities),
                    None => Err(AppError::InternalServerError),
                }
            },
            _ => Err(AppError::InternalServerError),
        }
    }
}

/// A row that shares its keys with a row that starts with a key starts with
/// that key too.
pub proof fn lemma_keeps_prefix(
    canonical: Seq<CqlValueView>,
    row: Seq<CqlValueView>,
    key: Seq<CqlValueView>,
    key_len: int,
)
    requires
        key.len() <= key_len,
        canonical.take(key_len) == row.take(key_len),
        canonical.len() >= key_len,
        row.len() >= key_len,
        starts_with(row, key),
    ensures
        starts_with(canonical, key),
{
    assert forall|i: int| 0 <= i < key.len() implies canonical[i] == key[i] by {
        assert(canonical.take(key_len)[i] == canonical[i]);
        assert(row.take(key_len)[i] == row[i]);
        assert(row.take(key.len() as int)[i] == row[i]);
    }
    assert(canonical.take(key.len() as int) =~= key);
}

} // verus!
