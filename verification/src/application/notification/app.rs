//! The notification service: the repository's results, shown to the
//! caller.

use crate::application::notification::request::{
    RequestGetNotificationByUsername, RequestUpdateNotification,
};
use crate::application::notification::response::{PublicNotification, PublicNotificationView};
use crate::common::result::{AppError, AppResult};
use crate::domain::notification::entity::{lemma_notification_row, Notification, NotificationView};
use crate::domain::notification::repository::{notification_partition, NotificationRepository};
use crate::infrastructure::persistence::repository::partition_result;
use crate::store::entity::entity_rows;
use crate::store::schema::EntityKind;
use crate::store::statement::{Action, ActionView, StatementView, StoreReply};
use crate::store::value::CqlValueView;
use std::sync::Arc;
use vstd::prelude::*;

verus! {

/// What is shown of each notification of a sequence.
pub open spec fn public_views(list: Seq<PublicNotification>) -> Seq<PublicNotificationView> {
    Seq::new(list.len(), |i: int| list[i]@)
}

/// What is shown of the notifications that rows hold.
pub open spec fn shown(list: Seq<Seq<CqlValueView>>) -> Seq<PublicNotificationView> {
    Seq::new(
        list.len(),
        |i: int| PublicNotificationView::of(NotificationView::of_row(list[i]).unwrap()),
    )
}

/// Whether the service's answer shows what the repository found, or
/// carries its error.
pub open spec fn shows(
    r: Result<Vec<PublicNotification>, AppError>,
    found: Result<Seq<Seq<CqlValueView>>, AppError>,
) -> bool {
    match r {
        Ok(list) => found matches Ok(held) && public_views(list@) == shown(held),
        Err(e) => found == Err::<Seq<Seq<CqlValueView>>, AppError>(e),
    }
}

/// The public face of each notification of a list.
pub fn show_all(found: &Vec<Notification>) -> (list: Vec<PublicNotification>)
    ensures
        public_views(list@) == shown(entity_rows(found@)),
{
    let mut list: Vec<PublicNotification> = Vec::new();
    let mut i: usize = 0;
    while i < found.len()
        invariant
            i <= found.len(),
            list.len() == i,
            forall|j: int|
                0 <= j < i ==> (#[trigger] list[j])@ == PublicNotificationView::of(found[j]@),
        decreases found.len() - i,
    {
        match PublicNotification::try_from(&found[i]) {
            Ok(shown) => list.push(shown),
            Err(_) => {},
        }
        i += 1;
    }
    assert(public_views(list@) =~= shown(entity_rows(found@))) by {
        assert forall|j: int| 0 <= j < found.len() implies NotificationView::of_row(
            #[trigger] entity_rows(found@)[j],
        ).unwrap() == found[j]@ by {
            lemma_notification_row(found[j]@);
        }
    }
    list
}

/// The notification service. Every operation comes in two halves, as those
/// of the repository it rests on.
pub trait NotificationAppInterface {
    /// The read of every notification of one partition.
    fn find_list_notification_by_username_statement(
        &self,
        query: &RequestGetNotificationByUsername,
    ) -> (action: Action)
        ensures
            action@ == ActionView::Single(
                StatementView::SelectPartition {
                    kind: EntityKind::Notification,
                    key: notification_partition(query),
                },
            ),
            action@.wf(),
    ;

    /// The notifications of one partition, shown; not found where there is
    /// none.
    fn find_list_notification_by_username(
        &self,
        query: &RequestGetNotificationByUsername,
        reply: &StoreReply,
    ) -> (r: AppResult<Vec<PublicNotification>>)
        ensures
            shows(r, partition_result::<Notification>(notification_partition(query), reply@)),
            r matches Ok(list) ==> list.len() > 0,
    ;

    /// The overwrite of the full row an update names.
    fn update_notification_statement(
        &self,
        notification: &RequestUpdateNotification,
    ) -> (action: Action)
        ensures
            action@ == ActionView::Single(
                StatementView::Update {
                    kind: EntityKind::Notification,
                    row: Notification::updated(notification).row(),
                },
            ),
            action@.wf(),
    ;

    /// The notification as written and shown, or an internal error where the
    /// store did not apply the write.
    fn update_notification(
        &self,
        notification: &RequestUpdateNotification,
        reply: &StoreReply,
    ) -> (r: AppResult<PublicNotification>)
        ensures
            match r {
                Ok(shown) => shown@ == PublicNotificationView::of(
                    Notification::updated(notification),
                ) && reply@ is Applied,
                Err(e) => e == AppError::InternalServerError && !(reply@ is Applied),
            },
    ;
}

/// The notification service over a repository of notifications.
pub struct NotificationApp<TP: NotificationRepository> {
    notification_repo: Arc<TP>,
}

impl<TP: NotificationRepository> NotificationApp<TP> {
    /// The repository the service rests on.
    pub closed spec fn repository(&self) -> Arc<TP> {
        self.notification_repo
    }

    /// The service over the repository given: every operation of the
    /// service goes to that repository.
    pub fn new(notification_repo: Arc<TP>) -> (app: Self)
        ensures
            app.repository() == notification_repo,
    {
        NotificationApp { notification_repo }
    }
}

impl<TP: NotificationRepository> NotificationAppInterface for NotificationApp<TP> {
    fn find_list_notification_by_username_statement(
        &self,
        query: &RequestGetNotificationByUsername,
    ) -> (action: Action) {
        self.notification_repo.find_notifications_by_partition_key_statement(query)
    }

    fn find_list_notification_by_username(
        &self,
        query: &RequestGetNotificationByUsername,
        reply: &StoreReply,
    ) -> (r: AppResult<Vec<PublicNotification>>) {
        match self.notification_repo.find_notifications_by_partition_key(query, reply) {
            Ok(found) => {
                let list = show_all(&found);
                assert(public_views(list@).len() == list.len());
                assert(shown(entity_rows(found@)).len() == found.len());
                Ok(list)
            },
            Err(e) => Err(e),
        }
    }

    fn update_notification_statement(
        &self,
        notification: &RequestUpdateNotification,
    ) -> (action: Action) {
        self.notification_repo.update_notifications_statement(notification)
    }

    fn update_notification(
        &self,
        notification: &RequestUpdateNotification,
        reply: &StoreReply,
    ) -> (r: AppResult<PublicNotification>) {
        match self.notification_repo.update_notifications(notification, reply) {
            Ok(written) => PublicNotification::try_from(&written),
            Err(e) => Err(e),
        }
    }
}

} // verus!
