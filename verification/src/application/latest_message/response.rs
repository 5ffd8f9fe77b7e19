//! What the latest message service shows of a latest message.

use crate::common::result::AppResult;
use crate::common::types::{Text, Timeuuid};
use crate::domain::latest_message::entity::{LatestMessage, LatestMessageView};
use vstd::prelude::*;

verus! {

/// The public face of a latest message.
#[derive(Debug, Clone, PartialEq, Eq)]
pub struct PublicLatestMessage {
    pub latest_message_id: Timeuuid,
    pub latest_message_content: Text,
    pub topic_id: Timeuuid,
    pub user_id: Timeuuid,
}

/// A [`PublicLatestMessage`] as mathematics.
pub struct PublicLatestMessageView {
    pub latest_message_id: u128,
    pub latest_message_content: Seq<char>,
    pub topic_id: u128,
    pub user_id: u128,
}

impl View for PublicLatestMessage {
    type V = PublicLatestMessageView;

    open spec fn view(&self) -> PublicLatestMessageView {
        PublicLatestMessageView {
            latest_message_id: self.latest_message_id.0,
            latest_message_content: self.latest_message_content@,
            topic_id: self.topic_id.0,
            user_id: self.user_id.0,
        }
    }
}

impl PublicLatestMessageView {
    /// What is shown of a latest message.
    pub open spec fn of(entity: LatestMessageView) -> PublicLatestMessageView {
        PublicLatestMessageView {
            latest_message_id: entity.latest_message_id,
            latest_message_content: entity.latest_message_content,
            topic_id: entity.topic_id,
            user_id: entity.user_id,
        }
    }
}

impl PublicLatestMessage {
    /// The public face of a latest message. It always exists.
    pub fn try_from(latest_message: &LatestMessage) -> (r: AppResult<PublicLatestMessage>)
        ensures
            r matches Ok(shown) && shown@ == PublicLatestMessageView::of(latest_message@),
    {
        Ok(
            PublicLatestMessage {
                latest_message_id: latest_message.latest_message_id,
                latest_message_content: latest_message.latest_message_content.clone(),
                topic_id: latest_message.topic_id,
                user_id: latest_message.user_id,
            },
        )
    }
}

} // verus!
