//! What a repository of topic users does.

use crate::application::topic_user::request::{RequestGetUsersByTopicId, RequestUpdateTopicUser};
use crate::common::result::{AppError, AppResult};
use crate::domain::topic_user::entity::TopicUser;
use crate::infrastructure::persistence::repository::{partition_result, same_outcome};
use crate::store::schema::EntityKind;
use crate::store::statement::{Action, ActionView, ReplyView, StatementView, StoreReply};
use crate::store::value::CqlValueView;
use vstd::prelude::*;

verus! {

/// The key of the partition a lookup names.
pub open spec fn topic_user_partition(query: &RequestGetUsersByTopicId) -> Seq<CqlValueView> {
    seq![CqlValueView::Timeuuid(query.topic_id.0)]
}

/// The repository of topic users. Every operation comes in two halves:
/// the statement to submit, and the result that the store's reply comes
/// to.
pub trait TopicUserRepository {
    /// The read of every topic user of one partition.
    fn find_topic_users_by_partition_key_statement(
        &self,
        query: &RequestGetUsersByTopicId,
    ) -> (action: Action)
        ensures
            action@ == ActionView::Single(
                StatementView::SelectPartition {
                    kind: EntityKind::TopicUser,
                    key: topic_user_partition(query),
                },
            ),
            action@.wf(),
    ;

    /// The topic users of one partition. An empty answer is reported as
    /// not found; every topic user returned lies in the partition
    /// addressed.
    fn find_topic_users_by_partition_key(
        &self,
        query: &RequestGetUsersByTopicId,
        reply: &StoreReply,
    ) -> (r: AppResult<Vec<TopicUser>>)
        ensures
            same_outcome(r, partition_result::<TopicUser>(topic_user_partition(query), reply@)),
            r matches Ok(found) ==> found.len() > 0 && forall|i: int|
                0 <= i < found.len() ==> (#[trigger] found[i]).topic_id == query.topic_id,
            reply@ matches ReplyView::Rows(list) && list.len() == 0 ==> r == Err::<
                Vec<TopicUser>,
                AppError,
            >(AppError::NotFound(EntityKind::TopicUser)),
    ;

    /// The overwrite of the full row an update names. Every column the
    /// request leaves out is written as its default.
    fn update_topic_users_statement(&self, topic_user: &RequestUpdateTopicUser) -> (action: Action)
        ensures
            action@ == ActionView::Single(
                StatementView::Update {
                    kind: EntityKind::TopicUser,
                    row: TopicUser::updated(topic_user).row(),
                },
            ),
            action@.wf(),
    ;

    /// The result of an update: the topic user as written, or an internal
    /// error where the store did not apply the write.
    fn update_topic_users(
        &self,
        topic_user: &RequestUpdateTopicUser,
        reply: &StoreReply,
    ) -> (r: AppResult<TopicUser>)
        ensures
            match r {
                Ok(written) => written@ == TopicUser::updated(topic_user) && reply@ is Applied,
                Err(e) => e == AppError::InternalServerError && !(reply@ is Applied),
            },
    ;
}

} // verus!
