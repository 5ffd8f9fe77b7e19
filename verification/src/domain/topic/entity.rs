//! The topic entity and its row.

use crate::application::topic::request::{
    RequestCreateTopic, RequestFindTopicError, RequestUpdateTopic,
};
use crate::common::generate::{node_id, now_timeuuid, utc_now};
use crate::common::result::{AppError, AppResult};
use crate::common::types::{clone_texts, texts, List, Text, Timestamp, Timeuuid};
use crate::store::entity::Entity;
use crate::store::schema::EntityKind;
use crate::store::statement::typed_row;
use crate::store::value::{clone_optional_text, optional_text, CqlValue, CqlValueView, Row};
use vstd::prelude::*;

verus! {

/// A topic. The partition key is `topic_id`, the clustering key is
/// `created_at`, and `topic_name` carries a secondary index.
#[derive(Debug, Clone, PartialEq, Eq)]
pub struct Topic {
    pub topic_id: Timeuuid,
    pub topic_name: Text,
    pub topic_description: Option<Text>,
    pub topic_owners: List<Text>,
    pub topic_admins: List<Text>,
    pub created_at: Timestamp,
    pub updated_at: Timestamp,
}

/// A [`Topic`] as mathematics.
pub struct TopicView {
    pub topic_id: u128,
    pub topic_name: Seq<char>,
    pub topic_description: Option<Seq<char>>,
    pub topic_owners: Seq<Seq<char>>,
    pub topic_admins: Seq<Seq<char>>,
    pub created_at: i64,
    pub updated_at: i64,
}

impl View for Topic {
    type V = TopicView;

    open spec fn view(&self) -> TopicView {
        TopicView {
            topic_id: self.topic_id.0,
            topic_name: self.topic_name@,
            topic_description: optional_text(self.topic_description),
            topic_owners: texts(self.topic_owners@),
            topic_admins: texts(self.topic_admins@),
            created_at: self.created_at.0,
            updated_at: self.updated_at.0,
        }
    }
}

/// The position of each column in a topic row.
pub const TOPIC_ID: usize = 0;

pub const TOPIC_CREATED_AT: usize = 1;

pub const TOPIC_NAME: usize = 2;

pub const TOPIC_DESCRIPTION: usize = 3;

pub const TOPIC_OWNERS: usize = 4;

pub const TOPIC_ADMINS: usize = 5;

pub const TOPIC_UPDATED_AT: usize = 6;

impl TopicView {
    /// The row that holds the topic.
    pub open spec fn row(self) -> Seq<CqlValueView> {
        seq![
            CqlValueView::Timeuuid(self.topic_id),
            CqlValueView::Timestamp(self.created_at),
            CqlValueView::Text(self.topic_name),
            CqlValueView::of_optional_text(self.topic_description),
            CqlValueView::TextList(self.topic_owners),
            CqlValueView::TextList(self.topic_admins),
            CqlValueView::Timestamp(self.updated_at),
        ]
    }

    /// The values of the partition key.
    pub open spec fn partition_key(self) -> Seq<CqlValueView> {
        seq![CqlValueView::Timeuuid(self.topic_id)]
    }

    /// The values of the partition and clustering key.
    pub open spec fn primary_key(self) -> Seq<CqlValueView> {
        seq![CqlValueView::Timeuuid(self.topic_id), CqlValueView::Timestamp(self.created_at)]
    }

    /// The topic a row holds, if the row has the shape of a topic row. A
    /// null list reads as the empty list; a null anywhere else but in the
    /// description makes the row unreadable.
    pub open spec fn of_row(row: Seq<CqlValueView>) -> Option<TopicView> {
        if row.len() == 7 && row[0].timeuuid() is Some && row[1].timestamp() is Some
            && row[2].text() is Some && row[3].optional_text() is Some && row[4].text_list() is Some
            && row[5].text_list() is Some && row[6].timestamp() is Some {
            Some(
                TopicView {
                    topic_id: row[0].timeuuid().unwrap(),
                    created_at: row[1].timestamp().unwrap(),
                    topic_name: row[2].text().unwrap(),
                    topic_description: row[3].optional_text().unwrap(),
                    topic_owners: row[4].text_list().unwrap(),
                    topic_admins: row[5].text_list().unwrap(),
                    updated_at: row[6].timestamp().unwrap(),
                },
            )
        } else {
            None
        }
    }
}

/// A topic's row is a typed row of the topic table, starts with the topic's
/// keys and reads back as the topic.
pub proof fn lemma_topic_row(topic: TopicView)
    ensures
        typed_row(EntityKind::Topic, topic.row()),
        TopicView::of_row(topic.row()) == Some(topic),
        topic.row().take(1) == topic.partition_key(),
        topic.row().take(2) == topic.primary_key(),
{
    assert(topic.row().take(1) =~= topic.partition_key());
    assert(topic.row().take(2) =~= topic.primary_key());
}

impl Topic {
    /// The row that holds the topic.
    pub fn to_row(&self) -> (row: Row)
        ensures
            row@ == self@.row(),
    {
        let mut values: Vec<CqlValue> = Vec::new();
        values.push(CqlValue::Timeuuid(self.topic_id));
        values.push(CqlValue::Timestamp(self.created_at));
        values.push(CqlValue::Text(self.topic_name.clone()));
        values.push(CqlValue::from_optional_text(&self.topic_description));
        values.push(CqlValue::TextList(clone_texts(&self.topic_owners)));
        values.push(CqlValue::TextList(clone_texts(&self.topic_admins)));
        values.push(CqlValue::Timestamp(self.updated_at));
        let row = Row { values };
        assert(row@ =~= self@.row());
        row
    }

    /// The topic a row holds, if the row has the shape of a topic row.
    pub fn from_row(row: &Row) -> (r: Option<Topic>)
        ensures
            match r {
                Some(topic) => TopicView::of_row(row@) == Some(topic@),
                None => TopicView::of_row(row@) is None,
            },
    {
        if row.values.len() != 7 {
            return None;
        }
        assert(forall|i: int| 0 <= i < 7 ==> row@[i] == row.values[i]@);
        let topic_id = row.values[0].as_timeuuid()?;
        let created_at = row.values[1].as_timestamp()?;
        let topic_name = row.values[2].as_text()?;
        let topic_description = row.values[3].as_optional_text()?;
        let topic_owners = row.values[4].as_text_list()?;
        let topic_admins = row.values[5].as_text_list()?;
        let updated_at = row.values[6].as_timestamp()?;
        Some(
            Topic {
                topic_id,
                topic_name,
                topic_description,
                topic_owners,
                topic_admins,
                created_at,
                updated_at,
            },
        )
    }

    /// A copy of the topic.
    pub fn duplicate(&self) -> (copy: Topic)
        ensures
            copy@ == self@,
    {
        Topic {
            topic_id: self.topic_id,
            topic_name: self.topic_name.clone(),
            topic_description: clone_optional_text(&self.topic_description),
            topic_owners: clone_texts(&self.topic_owners),
            topic_admins: clone_texts(&self.topic_admins),
            created_at: self.created_at,
            updated_at: self.updated_at,
        }
    }

    /// The topic a creation request describes, with the identifier and the
    /// timestamps it is given. Name, description, owners and administrators
    /// are those of the request.
    pub fn from_request(
        value: RequestCreateTopic,
        topic_id: Timeuuid,
        created_at: Timestamp,
        updated_at: Timestamp,
    ) -> (topic: Topic)
        ensures
            topic@ == (TopicView {
                topic_id: topic_id.0,
                topic_name: value.topic_name@,
                topic_description: optional_text(value.topic_description),
                topic_owners: texts(value.topic_owners@),
                topic_admins: texts(value.topic_admins@),
                created_at: created_at.0,
                updated_at: updated_at.0,
            }),
    {
        Topic {
            topic_id,
            topic_name: value.topic_name,
            topic_description: value.topic_description,
            topic_owners: value.topic_owners,
            topic_admins: value.topic_admins,
            created_at,
            updated_at,
        }
    }

    /// The topic a creation request describes, under a fresh time-ordered
    /// identifier and with the current time as its creation and update time.
    /// Every column the request sets is carried into the topic.
    pub fn try_from(value: RequestCreateTopic) -> (r: AppResult<Topic>)
        ensures
            r matches Ok(topic) && {
                &&& topic.topic_id.version() == 1
                &&& topic.topic_id.0 != 0
                &&& topic@.topic_name == value.topic_name@
                &&& topic@.topic_description == optional_text(value.topic_description)
                &&& topic@.topic_owners == texts(value.topic_owners@)
                &&& topic@.topic_admins == texts(value.topic_admins@)
            },
    {
        let node = node_id();
        let topic_id = now_timeuuid(&node);
        proof {
            crate::common::generate::lemma_version_one_not_nil(topic_id);
        }
        let created_at = utc_now();
        let updated_at = utc_now();
        Ok(Topic::from_request(value, topic_id, created_at, updated_at))
    }

    /// The topic with what is not yet assigned filled in: the identifier
    /// where it is nil, the creation and the update time where they are the
    /// epoch. Whatever is assigned stays.
    pub open spec fn filled(topic: TopicView, topic_id: u128, now: i64) -> TopicView {
        TopicView {
            topic_id: if topic.topic_id == 0 {
                topic_id
            } else {
                topic.topic_id
            },
            created_at: if topic.created_at == 0 {
                now
            } else {
                topic.created_at
            },
            updated_at: if topic.updated_at == 0 {
                now
            } else {
                topic.updated_at
            },
            ..topic
        }
    }

    /// The topic with what is not yet assigned filled in from the
    /// identifier and the time given.
    pub fn completed(self, topic_id: Timeuuid, now: Timestamp) -> (topic: Topic)
        ensures
            topic@ == Topic::filled(self@, topic_id.0, now.0),
    {
        Topic {
            topic_id: if self.topic_id.0 == 0 {
                topic_id
            } else {
                self.topic_id
            },
            created_at: if self.created_at.0 == 0 {
                now
            } else {
                self.created_at
            },
            updated_at: if self.updated_at.0 == 0 {
                now
            } else {
                self.updated_at
            },
            topic_name: self.topic_name,
            topic_description: self.topic_description,
            topic_owners: self.topic_owners,
            topic_admins: self.topic_admins,
        }
    }

    /// Whether one topic is another with what was not yet assigned filled
    /// in, the identifier by a version 1 identifier.
    pub open spec fn completes(before: TopicView, after: TopicView) -> bool {
        exists|topic_id: u128, now: i64|
            after == Topic::filled(before, topic_id, now) && (topic_id >> 76) & 0xf == 1
    }

    /// The topic made ready for its insert: what is not yet assigned is
    /// filled in with a fresh time-ordered identifier and the current time.
    pub fn complete(self) -> (topic: Topic)
        ensures
            Topic::completes(self@, topic@),
            topic.topic_id.0 != 0,
    {
        let node = node_id();
        let topic_id = now_timeuuid(&node);
        let now = utc_now();
        proof {
            crate::common::generate::lemma_version_one_not_nil(topic_id);
        }
        let ghost before = self@;
        let topic = self.completed(topic_id, now);
        assert(topic@ == Topic::filled(before, topic_id.0, now.0) && (topic_id.0 >> 76) & 0xf == 1);
        topic
    }

    /// The row an overwriting change writes: the key columns and whatever
    /// else the change names; every column it leaves out holds its default.
    pub open spec fn patched(patch: &RequestUpdateTopic) -> TopicView {
        TopicView {
            topic_id: patch.topic_id.0,
            created_at: patch.created_at.0,
            topic_name: match patch.topic_name {
                Some(name) => name@,
                None => Seq::empty(),
            },
            topic_description: optional_text(patch.topic_description),
            topic_owners: Seq::empty(),
            topic_admins: Seq::empty(),
            updated_at: 0,
        }
    }

    /// The topic an overwriting change writes.
    pub fn from_patch(patch: &RequestUpdateTopic) -> (topic: Topic)
        ensures
            topic@ == Topic::patched(patch),
    {
        let topic = Topic {
            topic_id: patch.topic_id,
            topic_name: match &patch.topic_name {
                Some(name) => name.clone(),
                None => String::new(),
            },
            topic_description: clone_optional_text(&patch.topic_description),
            topic_owners: Vec::new(),
            topic_admins: Vec::new(),
            created_at: patch.created_at,
            updated_at: Timestamp::epoch(),
        };
        assert(topic@.topic_owners =~= Seq::<Seq<char>>::empty());
        assert(topic@.topic_admins =~= Seq::<Seq<char>>::empty());
        topic
    }
}

impl Entity for Topic {
    open spec fn kind() -> EntityKind {
        EntityKind::Topic
    }

    open spec fn row(&self) -> Seq<CqlValueView> {
        self@.row()
    }

    open spec fn readable(row: Seq<CqlValueView>) -> bool {
        TopicView::of_row(row) is Some
    }

    open spec fn canonical(row: Seq<CqlValueView>) -> Seq<CqlValueView> {
        TopicView::of_row(row).unwrap().row()
    }

    fn entity_kind() -> (kind: EntityKind) {
        EntityKind::Topic
    }

    fn not_found() -> (e: AppError) {
        RequestFindTopicError::TopicNotFound.into_app_error()
    }

    fn to_row(&self) -> (row: Row) {
        Topic::to_row(self)
    }

    fn from_row(row: &Row) -> (r: Option<Self>) {
        Topic::from_row(row)
    }

    proof fn lemma_row(&self) {
        lemma_topic_row(self@);
    }

    proof fn lemma_canonical(row: Seq<CqlValueView>) {
        let topic = TopicView::of_row(row).unwrap();
        lemma_topic_row(topic);
        assert(topic.row().take(2) =~= row.take(2));
    }
}

} // verus!
