//! What the topic message service shows of a topic message.

use crate::common::result::AppResult;
use crate::common::types::{Text, Timeuuid};
use crate::domain::topic_message::entity::{TopicMessage, TopicMessageView};
use vstd::prelude::*;

verus! {

/// The public face of a topic message.
#[derive(Debug, Clone, PartialEq, Eq)]
pub struct PublicTopicMessage {
    pub topic_id: Timeuuid,
    pub from_user_id: Timeuuid,
    pub message: Text,
}

/// A [`PublicTopicMessage`] as mathematics.
pub struct PublicTopicMessageView {
    pub topic_id: u128,
    pub from_user_id: u128,
    pub message: Seq<char>,
}

impl View for PublicTopicMessage {
    type V = PublicTopicMessageView;

    open spec fn view(&self) -> PublicTopicMessageView {
        PublicTopicMessageView {
            topic_id: self.topic_id.0,
            from_user_id: self.from_user_id.0,
            message: self.message@,
        }
    }
}

impl PublicTopicMessageView {
    /// What is shown of a topic message.
    pub open spec fn of(entity: TopicMessageView) -> PublicTopicMessageView {
        PublicTopicMessageView {
            topic_id: entity.topic_id,
            from_user_id: entity.from_user_id,
            message: entity.message,
        }
    }
}

impl PublicTopicMessage {
    /// The public face of a topic message. It always exists.
    pub fn try_from(topic_message: &TopicMessage) -> (r: AppResult<PublicTopicMessage>)
        ensures
            r matches Ok(shown) && shown@ == PublicTopicMessageView::of(topic_message@),
    {
        Ok(
            PublicTopicMessage {
                topic_id: topic_message.topic_id,
                from_user_id: topic_message.from_user_id,
                message: topic_message.message.clone(),
            },
        )
    }
}

} // verus!
