//! The latest message entity and its row.

use crate::application::latest_message::request::{
    RequestFindLatestMessageError, RequestUpdateLatestMessage,
};
use crate::common::result::AppError;
use crate::common::types::{Text, Timestamp, Timeuuid};
use crate::store::entity::Entity;
use crate::store::schema::EntityKind;
use crate::store::statement::typed_row;
use crate::store::value::{CqlValue, CqlValueView, Row};
use vstd::prelude::*;

verus! {

/// The latest message a user has seen. The partition key is `user_id`;
/// there is no clustering key, so a user has one row.
#[derive(Debug, Clone, PartialEq, Eq)]
pub struct LatestMessage {
    pub latest_message_id: Timeuuid,
    pub latest_message_content: Text,
    pub topic_id: Timeuuid,
    pub user_id: Timeuuid,
    pub created_at: Timestamp,
    pub updated_at: Timestamp,
}

/// A [`LatestMessage`] as mathematics.
pub struct LatestMessageView {
    pub latest_message_id: u128,
    pub latest_message_content: Seq<char>,
    pub topic_id: u128,
    pub user_id: u128,
    pub created_at: i64,
    pub updated_at: i64,
}

impl View for LatestMessage {
    type V = LatestMessageView;

    open spec fn view(&self) -> LatestMessageView {
        LatestMessageView {
            latest_message_id: self.latest_message_id.0,
            latest_message_content: self.latest_message_content@,
            topic_id: self.topic_id.0,
            user_id: self.user_id.0,
            created_at: self.created_at.0,
            updated_at: self.updated_at.0,
        }
    }
}

impl LatestMessageView {
    /// The row that holds the latest message.
    pub open spec fn row(self) -> Seq<CqlValueView> {
        seq![
            CqlValueView::Timeuuid(self.user_id),
            CqlValueView::Timeuuid(self.latest_message_id),
            CqlValueView::Text(self.latest_message_content),
            CqlValueView::Timeuuid(self.topic_id),
            CqlValueView::Timestamp(self.created_at),
            CqlValueView::Timestamp(self.updated_at),
        ]
    }

    /// The values of the partition key.
    pub open spec fn partition_key(self) -> Seq<CqlValueView> {
        seq![CqlValueView::Timeuuid(self.user_id)]
    }

    /// The latest message a row holds, if the row has the shape of a
    /// latest message row. A null anywhere makes the row unreadable.
    pub open spec fn of_row(row: Seq<CqlValueView>) -> Option<LatestMessageView> {
        if row.len() == 6
            && row[0].timeuuid() is Some
            && row[1].timeuuid() is Some
            && row[2].text() is Some
            && row[3].timeuuid() is Some
            && row[4].timestamp() is Some
            && row[5].timestamp() is Some {
            Some(
                LatestMessageView {
                    user_id: row[0].timeuuid().unwrap(),
                    latest_message_id: row[1].timeuuid().unwrap(),
                    latest_message_content: row[2].text().unwrap(),
                    topic_id: row[3].timeuuid().unwrap(),
                    created_at: row[4].timestamp().unwrap(),
                    updated_at: row[5].timestamp().unwrap(),
                },
            )
        } else {
            None
        }
    }
}

/// The row of a latest message is a typed row of its table, starts with its
/// partition key and reads back as itself.
pub proof fn lemma_latest_message_row(entity: LatestMessageView)
    ensures
        typed_row(EntityKind::LatestMessage, entity.row()),
        LatestMessageView::of_row(entity.row()) == Some(entity),
        entity.row().take(1) == entity.partition_key(),
{
    assert(entity.row().take(1) =~= entity.partition_key());
}

impl LatestMessage {
    /// The row that holds the latest message.
    pub fn to_row(&self) -> (row: Row)
        ensures
            row@ == self@.row(),
    {
        let mut values: Vec<CqlValue> = Vec::new();
        values.push(CqlValue::Timeuuid(self.user_id));
        values.push(CqlValue::Timeuuid(self.latest_message_id));
        values.push(CqlValue::Text(self.latest_message_content.clone()));
        values.push(CqlValue::Timeuuid(self.topic_id));
        values.push(CqlValue::Timestamp(self.created_at));
        values.push(CqlValue::Timestamp(self.updated_at));
        let row = Row { values };
        assert(row@ =~= self@.row());
        row
    }

    /// The latest message a row holds, if the row has the shape of a
    /// latest message row.
    pub fn from_row(row: &Row) -> (r: Option<LatestMessage>)
        ensures
            match r {
                Some(entity) => LatestMessageView::of_row(row@) == Some(entity@),
                None => LatestMessageView::of_row(row@) is None,
            },
    {
        if row.values.len() != 6 {
            return None;
        }
        assert(forall|i: int| 0 <= i < 6 ==> row@[i] == row.values[i]@);
        let user_id = row.values[0].as_timeuuid()?;
        let latest_message_id = row.values[1].as_timeuuid()?;
        let latest_message_content = row.values[2].as_text()?;
        let topic_id = row.values[3].as_timeuuid()?;
        let created_at = row.values[4].as_timestamp()?;
        let updated_at = row.values[5].as_timestamp()?;
        Some(
            LatestMessage {
                latest_message_id,
                latest_message_content,
                topic_id,
                user_id,
                created_at,
                updated_at,
            },
        )
    }

    /// A copy of the latest message.
    pub fn duplicate(&self) -> (copy: LatestMessage)
        ensures
            copy@ == self@,
    {
        LatestMessage {
            latest_message_id: self.latest_message_id,
            latest_message_content: self.latest_message_content.clone(),
            topic_id: self.topic_id,
            user_id: self.user_id,
            created_at: self.created_at,
            updated_at: self.updated_at,
        }
    }

    /// What an update writes: the columns the request names; every column
    /// it leaves out holds its default.
    pub open spec fn updated(request: &RequestUpdateLatestMessage) -> LatestMessageView {
        LatestMessageView {
            latest_message_id: request.latest_message_id.0,
            latest_message_content: request.latest_message_content@,
            topic_id: request.topic_id.0,
            user_id: request.user_id.0,
            created_at: 0,
            updated_at: 0,
        }
    }

    /// The latest message an update writes.
    pub fn from_update(request: &RequestUpdateLatestMessage) -> (entity: LatestMessage)
        ensures
            entity@ == LatestMessage::updated(request),
    {
        LatestMessage {
            latest_message_id: request.latest_message_id,
            latest_message_content: request.latest_message_content.clone(),
            topic_id: request.topic_id,
            user_id: request.user_id,
            created_at: Timestamp::epoch(),
            updated_at: Timestamp::epoch(),
        }
    }
}

impl Entity for LatestMessage {
    open spec fn kind() -> EntityKind {
        EntityKind::LatestMessage
    }

    open spec fn row(&self) -> Seq<CqlValueView> {
        self@.row()
    }

    open spec fn readable(row: Seq<CqlValueView>) -> bool {
        LatestMessageView::of_row(row) is Some
    }

    open spec fn canonical(row: Seq<CqlValueView>) -> Seq<CqlValueView> {
        LatestMessageView::of_row(row).unwrap().row()
    }

    fn entity_kind() -> (kind: EntityKind) {
        EntityKind::LatestMessage
    }

    fn not_found() -> (e: AppError) {
        RequestFindLatestMessageError::LatestMessageNotFound.into_app_error()
    }

    fn to_row(&self) -> (row: Row) {
        LatestMessage::to_row(self)
    }

    fn from_row(row: &Row) -> (r: Option<Self>) {
        LatestMessage::from_row(row)
    }

    proof fn lemma_row(&self) {
        lemma_latest_message_row(self@);
    }

    proof fn lemma_canonical(row: Seq<CqlValueView>) {
        let entity = LatestMessageView::of_row(row).unwrap();
        lemma_latest_message_row(entity);
        assert(entity.row() =~= row);
    }
}

} // verus!
