//! The topic message entity and its row.

use crate::application::topic_message::request::{
    RequestFindLatestMessageError, RequestUpdateTopicMessage,
};
use crate::common::result::AppError;
use crate::common::types::{Text, Timestamp, Timeuuid};
use crate::store::entity::Entity;
use crate::store::schema::EntityKind;
use crate::store::statement::typed_row;
use crate::store::value::{CqlValue, CqlValueView, Row};
use vstd::prelude::*;

verus! {

/// A message posted to a topic. The partition key is `topic_id`, the
/// clustering key is `created_at`.
#[derive(Debug, Clone, PartialEq, Eq)]
pub struct TopicMessage {
    pub topic_id: Timeuuid,
    pub from_user_id: Timeuuid,
    pub message: Text,
    pub created_at: Timestamp,
}

/// A [`TopicMessage`] as mathematics.
pub struct TopicMessageView {
    pub topic_id: u128,
    pub from_user_id: u128,
    pub message: Seq<char>,
    pub created_at: i64,
}

impl View for TopicMessage {
    type V = TopicMessageView;

    open spec fn view(&self) -> TopicMessageView {
        TopicMessageView {
            topic_id: self.topic_id.0,
            from_user_id: self.from_user_id.0,
            message: self.message@,
            created_at: self.created_at.0,
        }
    }
}

impl TopicMessageView {
    /// The row that holds the topic message.
    pub open spec fn row(self) -> Seq<CqlValueView> {
        seq![
            CqlValueView::Timeuuid(self.topic_id),
            CqlValueView::Timestamp(self.created_at),
            CqlValueView::Timeuuid(self.from_user_id),
            CqlValueView::Text(self.message),
        ]
    }

    /// The values of the partition key.
    pub open spec fn partition_key(self) -> Seq<CqlValueView> {
        seq![CqlValueView::Timeuuid(self.topic_id)]
    }

    /// The topic message a row holds, if the row has the shape of a
    /// topic message row. A null anywhere makes the row unreadable.
    pub open spec fn of_row(row: Seq<CqlValueView>) -> Option<TopicMessageView> {
        if row.len() == 4
            && row[0].timeuuid() is Some
            && row[1].timestamp() is Some
            && row[2].timeuuid() is Some
            && row[3].text() is Some {
            Some(
                TopicMessageView {
                    topic_id: row[0].timeuuid().unwrap(),
                    created_at: row[1].timestamp().unwrap(),
                    from_user_id: row[2].timeuuid().unwrap(),
                    message: row[3].text().unwrap(),
                },
            )
        } else {
            None
        }
    }
}

/// The row of a topic message is a typed row of its table, starts with its
/// partition key and reads back as itself.
pub proof fn lemma_topic_message_row(entity: TopicMessageView)
    ensures
        typed_row(EntityKind::TopicMessage, entity.row()),
        TopicMessageView::of_row(entity.row()) == Some(entity),
        entity.row().take(1) == entity.partition_key(),
{
    assert(entity.row().take(1) =~= entity.partition_key());
}

impl TopicMessage {
    /// The row that holds the topic message.
    pub fn to_row(&self) -> (row: Row)
        ensures
            row@ == self@.row(),
    {
        let mut values: Vec<CqlValue> = Vec::new();
        values.push(CqlValue::Timeuuid(self.topic_id));
        values.push(CqlValue::Timestamp(self.created_at));
        values.push(CqlValue::Timeuuid(self.from_user_id));
        values.push(CqlValue::Text(self.message.clone()));
        let row = Row { values };
        assert(row@ =~= self@.row());
        row
    }

    /// The topic message a row holds, if the row has the shape of a
    /// topic message row.
    pub fn from_row(row: &Row) -> (r: Option<TopicMessage>)
        ensures
            match r {
                Some(entity) => TopicMessageView::of_row(row@) == Some(entity@),
                None => TopicMessageView::of_row(row@) is None,
            },
    {
        if row.values.len() != 4 {
            return None;
        }
        assert(forall|i: int| 0 <= i < 4 ==> row@[i] == row.values[i]@);
        let topic_id = row.values[0].as_timeuuid()?;
        let created_at = row.values[1].as_timestamp()?;
        let from_user_id = row.values[2].as_timeuuid()?;
        let message = row.values[3].as_text()?;
        Some(TopicMessage { topic_id, from_user_id, message, created_at })
    }

    /// A copy of the topic message.
    pub fn duplicate(&self) -> (copy: TopicMessage)
        ensures
            copy@ == self@,
    {
        TopicMessage {
            topic_id: self.topic_id,
            from_user_id: self.from_user_id,
            message: self.message.clone(),
            created_at: self.created_at,
        }
    }

    /// What an update writes: the columns the request names; every column
    /// it leaves out holds its default.
    pub open spec fn updated(request: &RequestUpdateTopicMessage) -> TopicMessageView {
        TopicMessageView {
            topic_id: request.topic_id.0,
            from_user_id: request.from_user_id.0,
            message: request.message@,
            created_at: 0,
        }
    }

    /// The topic message an update writes.
    pub fn from_update(request: &RequestUpdateTopicMessage) -> (entity: TopicMessage)
        ensures
            entity@ == TopicMessage::updated(request),
    {
        TopicMessage {
            topic_id: request.topic_id,
            from_user_id: request.from_user_id,
            message: request.message.clone(),
            created_at: Timestamp::epoch(),
        }
    }
}

impl Entity for TopicMessage {
    open spec fn kind() -> EntityKind {
        EntityKind::TopicMessage
    }

    open spec fn row(&self) -> Seq<CqlValueView> {
        self@.row()
    }

    open spec fn readable(row: Seq<CqlValueView>) -> bool {
        TopicMessageView::of_row(row) is Some
    }

    open spec fn canonical(row: Seq<CqlValueView>) -> Seq<CqlValueView> {
        TopicMessageView::of_row(row).unwrap().row()
    }

    fn entity_kind() -> (kind: EntityKind) {
        EntityKind::TopicMessage
    }

    fn not_found() -> (e: AppError) {
        RequestFindLatestMessageError::LatestMessageNotFound.into_app_error()
    }

    fn to_row(&self) -> (row: Row) {
        TopicMessage::to_row(self)
    }

    fn from_row(row: &Row) -> (r: Option<Self>) {
        TopicMessage::from_row(row)
    }

    proof fn lemma_row(&self) {
        lemma_topic_message_row(self@);
    }

    proof fn lemma_canonical(row: Seq<CqlValueView>) {
        let entity = TopicMessageView::of_row(row).unwrap();
        lemma_topic_message_row(entity);
        assert(entity.row() =~= row);
    }
}

} // verus!
