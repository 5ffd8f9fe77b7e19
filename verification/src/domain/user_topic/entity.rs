//! The user topic entity and its row.

use crate::application::user_topic::request::{
    RequestFindLatestMessageError, RequestUpdateUserTopic,
};
use crate::common::result::AppError;
use crate::common::types::{Text, Timestamp, Timeuuid};
use crate::store::entity::Entity;
use crate::store::schema::EntityKind;
use crate::store::statement::typed_row;
use crate::store::value::{CqlValue, CqlValueView, Row};
use vstd::prelude::*;

verus! {

/// A topic a user takes part in. The partition key is `topic_id`, the
/// clustering key is `created_at`.
#[derive(Debug, Clone, PartialEq, Eq)]
pub struct UserTopic {
    pub topic_id: Timeuuid,
    pub username: Text,
    pub created_at: Timestamp,
}

/// A [`UserTopic`] as mathematics.
pub struct UserTopicView {
    pub topic_id: u128,
    pub username: Seq<char>,
    pub created_at: i64,
}

impl View for UserTopic {
    type V = UserTopicView;

    open spec fn view(&self) -> UserTopicView {
        UserTopicView {
            topic_id: self.topic_id.0,
            username: self.username@,
            created_at: self.created_at.0,
        }
    }
}

impl UserTopicView {
    /// The row that holds the user topic.
    pub open spec fn row(self) -> Seq<CqlValueView> {
        seq![
            CqlValueView::Timeuuid(self.topic_id),
            CqlValueView::Timestamp(self.created_at),
            CqlValueView::Text(self.username),
        ]
    }

    /// The values of the partition key.
    pub open spec fn partition_key(self) -> Seq<CqlValueView> {
        seq![CqlValueView::Timeuuid(self.topic_id)]
    }

    /// The user topic a row holds, if the row has the shape of a
    /// user topic row. A null anywhere makes the row unreadable.
    pub open spec fn of_row(row: Seq<CqlValueView>) -> Option<UserTopicView> {
        if row.len() == 3
            && row[0].timeuuid() is Some
            && row[1].timestamp() is Some
            && row[2].text() is Some {
            Some(
                UserTopicView {
                    topic_id: row[0].timeuuid().unwrap(),
                    created_at: row[1].timestamp().unwrap(),
                    username: row[2].text().unwrap(),
                },
            )
        } else {
            None
        }
    }
}

/// The row of a user topic is a typed row of its table, starts with its
/// partition key and reads back as itself.
pub proof fn lemma_user_topic_row(entity: UserTopicView)
    ensures
        typed_row(EntityKind::UserTopic, entity.row()),
        UserTopicView::of_row(entity.row()) == Some(entity),
        entity.row().take(1) == entity.partition_key(),
{
    assert(entity.row().take(1) =~= entity.partition_key());
}

impl UserTopic {
    /// The row that holds the user topic.
    pub fn to_row(&self) -> (row: Row)
        ensures
            row@ == self@.row(),
    {
        let mut values: Vec<CqlValue> = Vec::new();
        values.push(CqlValue::Timeuuid(self.topic_id));
        values.push(CqlValue::Timestamp(self.created_at));
        values.push(CqlValue::Text(self.username.clone()));
        let row = Row { values };
        assert(row@ =~= self@.row());
        row
    }

    /// The user topic a row holds, if the row has the shape of a
    /// user topic row.
    pub fn from_row(row: &Row) -> (r: Option<UserTopic>)
        ensures
            match r {
                Some(entity) => UserTopicView::of_row(row@) == Some(entity@),
                None => UserTopicView::of_row(row@) is None,
            },
    {
        if row.values.len() != 3 {
            return None;
        }
        assert(forall|i: int| 0 <= i < 3 ==> row@[i] == row.values[i]@);
        let topic_id = row.values[0].as_timeuuid()?;
        let created_at = row.values[1].as_timestamp()?;
        let username = row.values[2].as_text()?;
        Some(UserTopic { topic_id, username, created_at })
    }

    /// A copy of the user topic.
    pub fn duplicate(&self) -> (copy: UserTopic)
        ensures
            copy@ == self@,
    {
        UserTopic {
            topic_id: self.topic_id,
            username: self.username.clone(),
            created_at: self.created_at,
        }
    }

    /// What an update writes: the columns the request names; every column
    /// it leaves out holds its default.
    pub open spec fn updated(request: &RequestUpdateUserTopic) -> UserTopicView {
        UserTopicView {
            topic_id: request.topic_id.0,
            username: request.username@,
            created_at: 0,
        }
    }

    /// The user topic an update writes.
    pub fn from_update(request: &RequestUpdateUserTopic) -> (entity: UserTopic)
        ensures
            entity@ == UserTopic::updated(request),
    {
        UserTopic {
            topic_id: request.topic_id,
            username: request.username.clone(),
            created_at: Timestamp::epoch(),
        }
    }
}

impl Entity for UserTopic {
    open spec fn kind() -> EntityKind {
        EntityKind::UserTopic
    }

    open spec fn row(&self) -> Seq<CqlValueView> {
        self@.row()
    }

    open spec fn readable(row: Seq<CqlValueView>) -> bool {
        UserTopicView::of_row(row) is Some
    }

    open spec fn canonical(row: Seq<CqlValueView>) -> Seq<CqlValueView> {
        UserTopicView::of_row(row).unwrap().row()
    }

    fn entity_kind() -> (kind: EntityKind) {
        EntityKind::UserTopic
    }

    fn not_found() -> (e: AppError) {
        RequestFindLatestMessageError::LatestMessageNotFound.into_app_error()
    }

    fn to_row(&self) -> (row: Row) {
        UserTopic::to_row(self)
    }

    fn from_row(row: &Row) -> (r: Option<Self>) {
        UserTopic::from_row(row)
    }

    proof fn lemma_row(&self) {
        lemma_user_topic_row(self@);
    }

    proof fn lemma_canonical(row: Seq<CqlValueView>) {
        let entity = UserTopicView::of_row(row).unwrap();
        lemma_user_topic_row(entity);
        assert(entity.row() =~= row);
    }
}

} // verus!
