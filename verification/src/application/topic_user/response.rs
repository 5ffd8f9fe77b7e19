//! What the topic user service shows of a topic user.

use crate::common::result::AppResult;
use crate::common::types::{Text, Timeuuid};
use crate::domain::topic_user::entity::{TopicUser, TopicUserView};
use vstd::prelude::*;

verus! {

/// The public face of a topic user.
#[derive(Debug, Clone, PartialEq, Eq)]
pub struct PublicTopicUser {
    pub topic_id: Timeuuid,
    pub user_id: Timeuuid,
    pub username: Text,
}

/// A [`PublicTopicUser`] as mathematics.
pub struct PublicTopicUserView {
    pub topic_id: u128,
    pub user_id: u128,
    pub username: Seq<char>,
}

impl View for PublicTopicUser {
    type V = PublicTopicUserView;

    open spec fn view(&self) -> PublicTopicUserView {
        PublicTopicUserView {
            topic_id: self.topic_id.0,
            user_id: self.user_id.0,
            username: self.username@,
        }
    }
}

impl PublicTopicUserView {
    /// What is shown of a topic user.
    pub open spec fn of(entity: TopicUserView) -> PublicTopicUserView {
        PublicTopicUserView {
            topic_id: entity.topic_id,
            user_id: entity.user_id,
            username: entity.username,
        }
    }
}

impl PublicTopicUser {
    /// The public face of a topic user. It always exists.
    pub fn try_from(topic_user: &TopicUser) -> (r: AppResult<PublicTopicUser>)
        ensures
            r matches Ok(shown) && shown@ == PublicTopicUserView::of(topic_user@),
    {
        Ok(
            PublicTopicUser {
                topic_id: topic_user.topic_id,
                user_id: topic_user.user_id,
                username: topic_user.username.clone(),
            },
        )
    }
}

} // verus!
