//! What the repositories ask of an entity: its table and its row.

use crate::common::result::AppError;
use crate::store::schema::{layout, EntityKind};
use crate::store::statement::typed_row;
use crate::store::value::{CqlValueView, Row};
use vstd::prelude::*;

verus! {

/// A type whose values are kept as rows of one table.
///
/// An entity is what its row holds. Reading is a little more generous than
/// writing (a null list reads as the empty list), so a readable row has a
/// canonical form: the row of the entity it reads as.
pub trait Entity: Sized {
    /// The table of the entity.
    spec fn kind() -> EntityKind;

    /// The row that holds the entity.
    spec fn row(&self) -> Seq<CqlValueView>;

    /// Whether a row reads as an entity of this type.
    spec fn readable(row: Seq<CqlValueView>) -> bool;

    /// The row of the entity a readable row reads as.
    spec fn canonical(row: Seq<CqlValueView>) -> Seq<CqlValueView>;

    /// The table of the entity.
    fn entity_kind() -> (kind: EntityKind)
        ensures
            kind == Self::kind(),
    ;

    /// The error that reports that a lookup of this entity matched no row.
    fn not_found() -> (e: AppError)
        ensures
            e == AppError::NotFound(Self::kind()),
    ;

    /// The row that holds the entity.
    fn to_row(&self) -> (row: Row)
        ensures
            row@ == self.row(),
    ;

    /// The entity a row holds, if the row is readable.
    fn from_row(row: &Row) -> (r: Option<Self>)
        ensures
            r is Some <==> Self::readable(row@),
            r matches Some(entity) ==> entity.row() == Self::canonical(row@),
    ;

    /// An entity's row is a typed row of its table and reads back as itself.
    proof fn lemma_row(&self)
        ensures
            typed_row(Self::kind(), self.row()),
            Self::readable(self.row()),
            Self::canonical(self.row()) == self.row(),
    ;

    /// The canonical form of a readable row is a typed row with the same
    /// keys, and a row in canonical form is its own canonical form.
    proof fn lemma_canonical(row: Seq<CqlValueView>)
        requires
            Self::readable(row),
        ensures
            typed_row(Self::kind(), Self::canonical(row)),
            Self::canonical(row).len() == row.len(),
            Self::canonical(row).take(layout(Self::kind()).key_len() as int) == row.take(
                layout(Self::kind()).key_len() as int,
            ),
            Self::readable(Self::canonical(row)),
            Self::canonical(Self::canonical(row)) == Self::canonical(row),
            forall|i: int|
                0 <= i < row.len() && row[i] != CqlValueView::Null ==> #[trigger] Self::canonical(
                    row,
                )[i] == row[i],
    ;
}

/// The rows of a sequence of entities.
pub open spec fn entity_rows<E: Entity>(entities: Seq<E>) -> Seq<Seq<CqlValueView>> {
    Seq::new(entities.len(), |i: int| entities[i].row())
}

/// The canonical forms of a sequence of rows.
pub open spec fn canonical_rows<E: Entity>(rows: Seq<Seq<CqlValueView>>) -> Seq<
    Seq<CqlValueView>,
> {
    Seq::new(rows.len(), |i: int| E::canonical(rows[i]))
}

/// Whether every row reads as an entity.
pub open spec fn all_readable<E: Entity>(rows: Seq<Seq<CqlValueView>>) -> bool {
    forall|i: int| 0 <= i < rows.len() ==> E::readable(#[trigger] rows[i])
}

} // verus!
