//! The topic user entity and its row.

use crate::application::topic_user::request::{
    RequestFindLatestMessageError, RequestUpdateTopicUser,
};
use crate::common::result::AppError;
use crate::common::types::{Text, Timestamp, Timeuuid};
use crate::store::entity::Entity;
use crate::store::schema::EntityKind;
use crate::store::statement::typed_row;
use crate::store::value::{CqlValue, CqlValueView, Row};
use vstd::prelude::*;

verus! {

/// A user who takes part in a topic. The partition key is `topic_id`,
/// the clustering key is `created_at`.
#[derive(Debug, Clone, PartialEq, Eq)]
pub struct TopicUser {
    pub topic_id: Timeuuid,
    pub username: Text,
    pub user_id: Timeuuid,
    pub created_at: Timestamp,
}

/// A [`TopicUser`] as mathematics.
pub struct TopicUserView {
    pub topic_id: u128,
    pub username: Seq<char>,
    pub user_id: u128,
    pub created_at: i64,
}

impl View for TopicUser {
    type V = TopicUserView;

    open spec fn view(&self) -> TopicUserView {
        TopicUserView {
            topic_id: self.topic_id.0,
            username: self.username@,
            user_id: self.user_id.0,
            created_at: self.created_at.0,
        }
    }
}

impl TopicUserView {
    /// The row that holds the topic user.
    pub open spec fn row(self) -> Seq<CqlValueView> {
        seq![
            CqlValueView::Timeuuid(self.topic_id),
            CqlValueView::Timestamp(self.created_at),
            CqlValueView::Text(self.username),
            CqlValueView::Timeuuid(self.user_id),
        ]
    }

    /// The values of the partition key.
    pub open spec fn partition_key(self) -> Seq<CqlValueView> {
        seq![CqlValueView::Timeuuid(self.topic_id)]
    }

    /// The topic user a row holds, if the row has the shape of a
    /// topic user row. A null anywhere makes the row unreadable.
    pub open spec fn of_row(row: Seq<CqlValueView>) -> Option<TopicUserView> {
        if row.len() == 4
            && row[0].timeuuid() is Some
            && row[1].timestamp() is Some
            && row[2].text() is Some
            && row[3].timeuuid() is Some {
            Some(
                TopicUserView {
                    topic_id: row[0].timeuuid().unwrap(),
                    created_at: row[1].timestamp().unwrap(),
                    username: row[2].text().unwrap(),
                    user_id: row[3].timeuuid().unwrap(),
                },
            )
        } else {
            None
        }
    }
}

/// The row of a topic user is a typed row of its table, starts with its
/// partition key and reads back as itself.
pub proof fn lemma_topic_user_row(entity: TopicUserView)
    ensures
        typed_row(EntityKind::TopicUser, entity.row()),
        TopicUserView::of_row(entity.row()) == Some(entity),
        entity.row().take(1) == entity.partition_key(),
{
    assert(entity.row().take(1) =~= entity.partition_key());
}

impl TopicUser {
    /// The row that holds the topic user.
    pub fn to_row(&self) -> (row: Row)
        ensures
            row@ == self@.row(),
    {
        let mut values: Vec<CqlValue> = Vec::new();
        values.push(CqlValue::Timeuuid(self.topic_id));
        values.push(CqlValue::Timestamp(self.created_at));
        values.push(CqlValue::Text(self.username.clone()));
        values.push(CqlValue::Timeuuid(self.user_id));
        let row = Row { values };
        assert(row@ =~= self@.row());
        row
    }

    /// The topic user a row holds, if the row has the shape of a
    /// topic user row.
    pub fn from_row(row: &Row) -> (r: Option<TopicUser>)
        ensures
            match r {
                Some(entity) => TopicUserView::of_row(row@) == Some(entity@),
                None => TopicUserView::of_row(row@) is None,
            },
    {
        if row.values.len() != 4 {
            return None;
        }
        assert(forall|i: int| 0 <= i < 4 ==> row@[i] == row.values[i]@);
        let topic_id = row.values[0].as_timeuuid()?;
        let created_at = row.values[1].as_timestamp()?;
        let username = row.values[2].as_text()?;
        let user_id = row.values[3].as_timeuuid()?;
        Some(TopicUser { topic_id, username, user_id, created_at })
    }

    /// A copy of the topic user.
    pub fn duplicate(&self) -> (copy: TopicUser)
        ensures
            copy@ == self@,
    {
        TopicUser {
            topic_id: self.topic_id,
            username: self.username.clone(),
            user_id: self.user_id,
            created_at: self.created_at,
        }
    }

    /// What an update writes: the columns the request names; every column
    /// it leaves out holds its default.
    pub open spec fn updated(request: &RequestUpdateTopicUser) -> TopicUserView {
        TopicUserView {
            topic_id: request.topic_id.0,
            username: request.username@,
            user_id: request.user_id.0,
            created_at: 0,
        }
    }

    /// The topic user an update writes.
    pub fn from_update(request: &RequestUpdateTopicUser) -> (entity: TopicUser)
        ensures
            entity@ == TopicUser::updated(request),
    {
        TopicUser {
            topic_id: request.topic_id,
            username: request.username.clone(),
            user_id: request.user_id,
            created_at: Timestamp::epoch(),
        }
    }
}

impl Entity for TopicUser {
    open spec fn kind() -> EntityKind {
        EntityKind::TopicUser
    }

    open spec fn row(&self) -> Seq<CqlValueView> {
        self@.row()
    }

    open spec fn readable(row: Seq<CqlValueView>) -> bool {
        TopicUserView::of_row(row) is Some
    }

    open spec fn canonical(row: Seq<CqlValueView>) -> Seq<CqlValueView> {
        TopicUserView::of_row(row).unwrap().row()
    }

    fn entity_kind() -> (kind: EntityKind) {
        EntityKind::TopicUser
    }

    fn not_found() -> (e: AppError) {
        RequestFindLatestMessageError::LatestMessageNotFound.into_app_error()
    }

    fn to_row(&self) -> (row: Row) {
        TopicUser::to_row(self)
    }

    fn from_row(row: &Row) -> (r: Option<Self>) {
        TopicUser::from_row(row)
    }

    proof fn lemma_row(&self) {
        lemma_topic_user_row(self@);
    }

    proof fn lemma_canonical(row: Seq<CqlValueView>) {
        let entity = TopicUserView::of_row(row).unwrap();
        lemma_topic_user_row(entity);
        assert(entity.row() =~= row);
    }
}

} // verus!
