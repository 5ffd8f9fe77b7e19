//! What a repository of notifications does.

use crate::application::notification::request::{
    RequestGetNotificationByUsername, RequestUpdateNotification,
};
use crate::common::result::{AppError, AppResult};
use crate::domain::notification::entity::Notification;
use crate::infrastructure::persistence::repository::{partition_result, same_outcome};
use crate::store::schema::EntityKind;
use crate::store::statement::{Action, ActionView, ReplyView, StatementView, StoreReply};
use crate::store::value::CqlValueView;
use vstd::prelude::*;

verus! {

/// The key of the partition a lookup names.
pub open spec fn notification_partition(
    query: &RequestGetNotificationByUsername,
) -> Seq<CqlValueView> {
    seq![CqlValueView::Text(query.username@)]
}

/// The repository of notifications. Every operation comes in two halves:
/// the statement to submit, and the result that the store's reply comes
/// to.
pub trait NotificationRepository {
    /// The read of every notification of one partition.
    fn find_notifications_by_partition_key_statement(
        &self,
        query: &RequestGetNotificationByUsername,
    ) -> (action: Action)
        ensures
            action@ == ActionView::Single(
                StatementView::SelectPartition {
                    kind: EntityKind::Notification,
                    key: notification_partition(query),
                },
            ),
            action@.wf(),
    ;

    /// The notifications of one partition. An empty answer is reported as
    /// not found; every notification returned lies in the partition
    /// addressed.
    fn find_notifications_by_partition_key(
        &self,
        query: &RequestGetNotificationByUsername,
        reply: &StoreReply,
    ) -> (r: AppResult<Vec<Notification>>)
        ensures
            same_outcome(
                r,
                partition_result::<Notification>(notification_partition(query), reply@),
            ),
            r matches Ok(found) ==> found.len() > 0 && forall|i: int|
                0 <= i < found.len() ==> (#[trigger] found[i]).username@ == query.username@,
            reply@ matches ReplyView::Rows(list) && list.len() == 0 ==> r == Err::<
                Vec<Notification>,
                AppError,
            >(AppError::NotFound(EntityKind::Notification)),
    ;

    /// The overwrite of the full row an update names. Every column the
    /// request leaves out is written as its default.
    fn update_notifications_statement(
        &self,
        notification: &RequestUpdateNotification,
    ) -> (action: Action)
        ensures
            action@ == ActionView::Single(
                StatementView::Update {
                    kind: EntityKind::Notification,
                    row: Notification::updated(notification).row(),
                },
            ),
            action@.wf(),
    ;

    /// The result of an update: the notification as written, or an internal
    /// error where the store did not apply the write.
    fn update_notifications(
        &self,
        notification: &RequestUpdateNotification,
        reply: &StoreReply,
    ) -> (r: AppResult<Notification>)
        ensures
            match r {
                Ok(written) => written@ == Notification::updated(notification) && reply@ is Applied,
                Err(e) => e == AppError::InternalServerError && !(reply@ is Applied),
            },
    ;
}

} // verus!
