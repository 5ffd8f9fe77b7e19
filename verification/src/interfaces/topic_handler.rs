//! The entry point that creates topics.

use crate::application::topic::app::TopicAppInterface;
use crate::application::topic::request::RequestCreateTopic;
use crate::application::topic::response::{PublicTopic, PublicTopicView};
use crate::common::result::{AppError, AppResult};
use crate::common::types::texts;
use crate::domain::topic::entity::Topic;
use crate::store::schema::EntityKind;
use crate::store::statement::{Action, ActionView, StatementView, StoreReply};
use crate::store::value::optional_text;
use std::sync::Arc;
use vstd::prelude::*;

verus! {

/// The handler of topic commands.
pub struct TopicHandler<UA: TopicAppInterface> {
    pub topic_app: Arc<UA>,
}

/// The first half of creating a topic: the request is validated, the topic
/// is given a fresh identifier and the current time, and the write is
/// composed. A request that does not pass validation is turned away before
/// anything is submitted.
pub fn on_create_new_topic_statement<UA: TopicAppInterface>(
    handler: &TopicHandler<UA>,
    body: RequestCreateTopic,
) -> (r: AppResult<(Topic, Action)>)
    ensures
        !body.valid() ==> r matches Err(AppError::BadRequest { .. }),
        body.valid() ==> (r matches Ok((topic, action)) && {
            &&& topic.topic_id.0 != 0
            &&& topic@.topic_name == body.topic_name@
            &&& topic@.topic_description == optional_text(body.topic_description)
            &&& topic@.topic_owners == texts(body.topic_owners@)
            &&& topic@.topic_admins == texts(body.topic_admins@)
            &&& action@ == ActionView::Single(
                StatementView::Insert { kind: EntityKind::Topic, row: topic@.row() },
            )
            &&& action@.wf()
        }),
{
    let request = match body.try_into_domain() {
        Ok(request) => request,
        Err(e) => {
            return Err(e);
        },
    };
    let topic = match Topic::try_from(request) {
        Ok(topic) => topic,
        Err(e) => {
            return Err(e);
        },
    };
    Ok(handler.topic_app.create_topic_statement(topic))
}

/// The second half of creating a topic: the topic as shown, or an internal
/// error where the store did not apply the write.
pub fn on_create_new_topic<UA: TopicAppInterface>(
    handler: &TopicHandler<UA>,
    topic: &Topic,
    reply: &StoreReply,
) -> (r: AppResult<PublicTopic>)
    ensures
        match r {
            Ok(shown) => shown@ == PublicTopicView::of(topic@) && reply@ is Applied,
            Err(e) => e == AppError::InternalServerError && !(reply@ is Applied),
        },
{
    handler.topic_app.create_topic(topic, reply)
}

} // verus!
