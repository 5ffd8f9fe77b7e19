//! What the user topic service shows of a user topic.

use crate::common::result::AppResult;
use crate::common::types::{Text, Timestamp, Timeuuid};
use crate::domain::user_topic::entity::{UserTopic, UserTopicView};
use vstd::prelude::*;

verus! {

/// The public face of a user topic.
#[derive(Debug, Clone, PartialEq, Eq)]
pub struct PublicUserTopic {
    pub topic_id: Timeuuid,
    pub username: Text,
    pub created_at: Timestamp,
}

/// A [`PublicUserTopic`] as mathematics.
pub struct PublicUserTopicView {
    pub topic_id: u128,
    pub username: Seq<char>,
    pub created_at: i64,
}

impl View for PublicUserTopic {
    type V = PublicUserTopicView;

    open spec fn view(&self) -> PublicUserTopicView {
        PublicUserTopicView {
            topic_id: self.topic_id.0,
            username: self.username@,
            created_at: self.created_at.0,
        }
    }
}

impl PublicUserTopicView {
    /// What is shown of a user topic.
    pub open spec fn of(entity: UserTopicView) -> PublicUserTopicView {
        PublicUserTopicView {
            topic_id: entity.topic_id,
            username: entity.username,
            created_at: entity.created_at,
        }
    }
}

impl PublicUserTopic {
    /// The public face of a user topic. It always exists.
    pub fn try_from(user_topic: &UserTopic) -> (r: AppResult<PublicUserTopic>)
        ensures
            r matches Ok(shown) && shown@ == PublicUserTopicView::of(user_topic@),
    {
        Ok(
            PublicUserTopic {
                topic_id: user_topic.topic_id,
                username: user_topic.username.clone(),
                created_at: user_topic.created_at,
            },
        )
    }
}

} // verus!
