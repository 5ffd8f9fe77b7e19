//! What a repository of topic messages does.

use crate::application::topic_message::request::{
    RequestGetMessagesByTopicId, RequestUpdateTopicMessage,
};
use crate::common::result::{AppError, AppResult};
use crate::domain::topic_message::entity::TopicMessage;
use crate::infrastructure::persistence::repository::{partition_result, same_outcome};
use crate::store::schema::EntityKind;
use crate::store::statement::{Action, ActionView, ReplyView, StatementView, StoreReply};
use crate::store::value::CqlValueView;
use vstd::prelude::*;

verus! {

/// The key of the partition a lookup names.
pub open spec fn topic_message_partition(query: &RequestGetMessagesByTopicId) -> Seq<CqlValueView> {
    seq![CqlValueView::Timeuuid(query.topic_id.0)]
}

/// The repository of topic messages. Every operation comes in two halves:
/// the statement to submit, and the result that the store's reply comes
/// to.
pub trait TopicMessageRepository {
    /// The read of every topic message of one partition.
    fn find_topic_message_by_partition_key_statement(
        &self,
        query: &RequestGetMessagesByTopicId,
    ) -> (action: Action)
        ensures
            action@ == ActionView::Single(
                StatementView::SelectPartition {
                    kind: EntityKind::TopicMessage,
                    key: topic_message_partition(query),
                },
            ),
            action@.wf(),
    ;

    /// The topic messages of one partition. An empty answer is reported as
    /// not found; every topic message returned lies in the partition
    /// addressed.
    fn find_topic_message_by_partition_key(
        &self,
        query: &RequestGetMessagesByTopicId,
        reply: &StoreReply,
    ) -> (r: AppResult<Vec<TopicMessage>>)
        ensures
            same_outcome(
                r,
                partition_result::<TopicMessage>(topic_message_partition(query), reply@),
            ),
            r matches Ok(found) ==> found.len() > 0 && forall|i: int|
                0 <= i < found.len() ==> (#[trigger] found[i]).topic_id == query.topic_id,
            reply@ matches ReplyView::Rows(list) && list.len() == 0 ==> r == Err::<
                Vec<TopicMessage>,
                AppError,
            >(AppError::NotFound(EntityKind::TopicMessage)),
    ;

    /// The overwrite of the full row an update names. Every column the
    /// request leaves out is written as its default.
    fn update_topic_message_statement(
        &self,
        topic_message: &RequestUpdateTopicMessage,
    ) -> (action: Action)
        ensures
            action@ == ActionView::Single(
                StatementView::Update {
                    kind: EntityKind::TopicMessage,
                    row: TopicMessage::updated(topic_message).row(),
                },
            ),
            action@.wf(),
    ;

    /// The result of an update: the topic message as written, or an internal
    /// error where the store did not apply the write.
    fn update_topic_message(
        &self,
        topic_message: &RequestUpdateTopicMessage,
        reply: &StoreReply,
    ) -> (r: AppResult<TopicMessage>)
        ensures
            match r {
                Ok(written) => written@ == TopicMessage::updated(topic_message)
                    && reply@ is Applied,
                Err(e) => e == AppError::InternalServerError && !(reply@ is Applied),
            },
    ;
}

} // verus!
