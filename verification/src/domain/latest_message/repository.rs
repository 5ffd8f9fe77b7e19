//! What a repository of latest messages does.

use crate::application::latest_message::request::{
    RequestGetLatestMessagesByUserId, RequestUpdateLatestMessage,
};
use crate::common::result::{AppError, AppResult};
use crate::domain::latest_message::entity::LatestMessage;
use crate::infrastructure::persistence::repository::{partition_result, same_outcome};
use crate::store::schema::EntityKind;
use crate::store::statement::{Action, ActionView, ReplyView, StatementView, StoreReply};
use crate::store::value::CqlValueView;
use vstd::prelude::*;

verus! {

/// The key of the partition a lookup names.
pub open spec fn latest_message_partition(
    query: &RequestGetLatestMessagesByUserId,
) -> Seq<CqlValueView> {
    seq![CqlValueView::Timeuuid(query.user_id.0)]
}

/// The repository of latest messages. Every operation comes in two halves:
/// the statement to submit, and the result that the store's reply comes
/// to.
pub trait LatestMessageRepository {
    /// The read of every latest message of one partition.
    fn find_latest_message_by_partition_key_statement(
        &self,
        query: &RequestGetLatestMessagesByUserId,
    ) -> (action: Action)
        ensures
            action@ == ActionView::Single(
                StatementView::SelectPartition {
                    kind: EntityKind::LatestMessage,
                    key: latest_message_partition(query),
                },
            ),
            action@.wf(),
    ;

    /// The latest messages of one partition. An empty answer is reported as
    /// not found; every latest message returned lies in the partition
    /// addressed.
    fn find_latest_message_by_partition_key(
        &self,
        query: &RequestGetLatestMessagesByUserId,
        reply: &StoreReply,
    ) -> (r: AppResult<Vec<LatestMessage>>)
        ensures
            same_outcome(
                r,
                partition_result::<LatestMessage>(latest_message_partition(query), reply@),
            ),
            r matches Ok(found) ==> found.len() > 0 && forall|i: int|
                0 <= i < found.len() ==> (#[trigger] found[i]).user_id == query.user_id,
            reply@ matches ReplyView::Rows(list) && list.len() == 0 ==> r == Err::<
                Vec<LatestMessage>,
                AppError,
            >(AppError::NotFound(EntityKind::LatestMessage)),
    ;

    /// The overwrite of the full row an update names. Every column the
    /// request leaves out is written as its default.
    fn update_latest_message_statement(
        &self,
        latest_message: &RequestUpdateLatestMessage,
    ) -> (action: Action)
        ensures
            action@ == ActionView::Single(
                StatementView::Update {
                    kind: EntityKind::LatestMessage,
                    row: LatestMessage::updated(latest_message).row(),
                },
            ),
            action@.wf(),
    ;

    /// The result of an update: the latest message as written, or an internal
    /// error where the store did not apply the write.
    fn update_latest_message(
        &self,
        latest_message: &RequestUpdateLatestMessage,
        reply: &StoreReply,
    ) -> (r: AppResult<LatestMessage>)
        ensures
            match r {
                Ok(written) => written@ == LatestMessage::updated(latest_message)
                    && reply@ is Applied,
                Err(e) => e == AppError::InternalServerError && !(reply@ is Applied),
            },
    ;
}

} // verus!
