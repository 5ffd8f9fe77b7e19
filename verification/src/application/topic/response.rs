//! What the topic service shows of a topic.

use crate::common::result::AppResult;
use crate::common::types::{clone_texts, texts, Text, Timestamp, Timeuuid};
use crate::domain::topic::entity::{Topic, TopicView};
use crate::store::value::{clone_optional_text, optional_text};
use vstd::prelude::*;

verus! {

/// The public face of a topic: everything but the time of its last update.
/// The identifier and the creation time are the key under which the topic
/// is stored, so a caller can address the topic again.
#[derive(Debug, Clone, PartialEq, Eq)]
pub struct PublicTopic {
    pub topic_id: Timeuuid,
    pub topic_name: Text,
    pub topic_description: Option<Text>,
    pub topic_owners: Vec<Text>,
    pub topic_admins: Vec<Text>,
    pub created_at: Timestamp,
}

/// A [`PublicTopic`] as mathematics.
pub struct PublicTopicView {
    pub topic_id: u128,
    pub topic_name: Seq<char>,
    pub topic_description: Option<Seq<char>>,
    pub topic_owners: Seq<Seq<char>>,
    pub topic_admins: Seq<Seq<char>>,
    pub created_at: i64,
}

impl View for PublicTopic {
    type V = PublicTopicView;

    open spec fn view(&self) -> PublicTopicView {
        PublicTopicView {
            topic_id: self.topic_id.0,
            topic_name: self.topic_name@,
            topic_description: optional_text(self.topic_description),
            topic_owners: texts(self.topic_owners@),
            topic_admins: texts(self.topic_admins@),
            created_at: self.created_at.0,
        }
    }
}

impl PublicTopicView {
    /// What is shown of a topic.
    pub open spec fn of(topic: TopicView) -> PublicTopicView {
        PublicTopicView {
            topic_id: topic.topic_id,
            topic_name: topic.topic_name,
            topic_description: topic.topic_description,
            topic_owners: topic.topic_owners,
            topic_admins: topic.topic_admins,
            created_at: topic.created_at,
        }
    }
}

/// What is shown of each topic of a sequence.
pub open spec fn public_topics(list: Seq<PublicTopic>) -> Seq<PublicTopicView> {
    Seq::new(list.len(), |i: int| list[i]@)
}

impl PublicTopic {
    /// The public face of a topic. It always exists.
    pub fn try_from(topic: &Topic) -> (r: AppResult<PublicTopic>)
        ensures
            r matches Ok(shown) && shown@ == PublicTopicView::of(topic@),
    {
        Ok(
            PublicTopic {
                topic_id: topic.topic_id,
                topic_name: topic.topic_name.clone(),
                topic_description: clone_optional_text(&topic.topic_description),
                topic_owners: clone_texts(&topic.topic_owners),
                topic_admins: clone_texts(&topic.topic_admins),
                created_at: topic.created_at,
            },
        )
    }
}

} // verus!
