//! What a repository of user topics does.

use crate::application::user_topic::request::{RequestGetTopicsByUsername, RequestUpdateUserTopic};
use crate::common::result::{AppError, AppResult};
use crate::domain::user_topic::entity::UserTopic;
use crate::infrastructure::persistence::repository::{partition_result, same_outcome};
use crate::store::schema::EntityKind;
use crate::store::statement::{Action, ActionView, ReplyView, StatementView, StoreReply};
use crate::store::value::CqlValueView;
use vstd::prelude::*;

verus! {

/// The key of the partition a lookup names.
pub open spec fn user_topic_partition(query: &RequestGetTopicsByUsername) -> Seq<CqlValueView> {
    seq![CqlValueView::Timeuuid(query.topic_id.0)]
}

/// The repository of user topics. Every operation comes in two halves:
/// the statement to submit, and the result that the store's reply comes
/// to.
pub trait UserTopicRepository {
    /// The read of every user topic of one partition.
    fn find_user_topics_by_partition_key_statement(
        &self,
        query: &RequestGetTopicsByUsername,
    ) -> (action: Action)
        ensures
            action@ == ActionView::Single(
                StatementView::SelectPartition {
                    kind: EntityKind::UserTopic,
                    key: user_topic_partition(query),
                },
            ),
            action@.wf(),
    ;

    /// The user topics of one partition. An empty answer is reported as
    /// not found; every user topic returned lies in the partition asked
    /// for.
    fn find_user_topics_by_partition_key(
        &self,
        query: &RequestGetTopicsByUsername,
        reply: &StoreReply,
    ) -> (r: AppResult<Vec<UserTopic>>)
        ensures
            same_outcome(r, partition_result::<UserTopic>(user_topic_partition(query), reply@)),
            r matches Ok(found) ==> found.len() > 0 && forall|i: int|
                0 <= i < found.len() ==> (#[trigger] found[i]).topic_id == query.topic_id,
            reply@ matches ReplyView::Rows(list) && list.len() == 0 ==> r == Err::<
                Vec<UserTopic>,
                AppError,
            >(AppError::NotFound(EntityKind::UserTopic)),
    ;

    /// The overwrite of the full row an update names. Every column the
    /// request leaves out is written as its default.
    fn update_user_topics_statement(&self, user_topic: &RequestUpdateUserTopic) -> (action: Action)
        ensures
            action@ == ActionView::Single(
                StatementView::Update {
                    kind: EntityKind::UserTopic,
                    row: UserTopic::updated(user_topic).row(),
                },
            ),
            action@.wf(),
    ;

    /// The result of an update: the user topic as written, or an internal
    /// error where the store did not apply the write.
    fn update_user_topics(
        &self,
        user_topic: &RequestUpdateUserTopic,
        reply: &StoreReply,
    ) -> (r: AppResult<UserTopic>)
        ensures
            match r {
                Ok(written) => written@ == UserTopic::updated(user_topic) && reply@ is Applied,
                Err(e) => e == AppError::InternalServerError && !(reply@ is Applied),
            },
    ;
}

} // verus!
