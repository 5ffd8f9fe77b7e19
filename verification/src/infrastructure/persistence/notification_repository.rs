//! The notification repository.

use crate::application::notification::request::{
    RequestGetNotificationByUsername, RequestUpdateNotification,
};
use crate::common::result::AppResult;
use crate::domain::notification::entity::Notification;
use crate::domain::notification::repository::{notification_partition, NotificationRepository};
use crate::infrastructure::persistence::migration::{migrate_table, table_migration};
use crate::infrastructure::persistence::repository::Repository;
use crate::store::entity::Entity;
use crate::store::schema::EntityKind;
use crate::store::statement::{statements, Action, Statement, StoreReply};
use crate::store::value::{starts_with, CqlValue, Row};
use vstd::prelude::*;

verus! {

fn partition_row(query: &RequestGetNotificationByUsername) -> (key: Row)
    ensures
        key@ == notification_partition(query),
{
    let mut values: Vec<CqlValue> = Vec::new();
    values.push(CqlValue::Text(query.username.clone()));
    let key = Row { values };
    assert(key@ =~= notification_partition(query));
    key
}

/// The repository of notifications.
pub struct NotificationRepo {
    repository: Repository<Notification>,
}

impl NotificationRepo {
    pub fn new() -> (repo: Self) {
        NotificationRepo { repository: Repository::new() }
    }

    /// The statements that prepare the store for notifications. Each is
    /// safe to run again.
    pub fn migrate_notification_table(&self) -> (plan: Vec<Statement>)
        ensures
            statements(plan@) == table_migration(EntityKind::Notification),
    {
        migrate_table(EntityKind::Notification)
    }
}

impl NotificationRepository for NotificationRepo {
    fn find_notifications_by_partition_key_statement(
        &self,
        query: &RequestGetNotificationByUsername,
    ) -> (action: Action) {
        self.repository.find_by_partition_key_statement(partition_row(query))
    }

    fn find_notifications_by_partition_key(
        &self,
        query: &RequestGetNotificationByUsername,
        reply: &StoreReply,
    ) -> (r: AppResult<Vec<Notification>>) {
        let key = partition_row(query);
        let r = self.repository.find_by_partition_key(&key, reply);
        proof {
            if let Ok(found) = &r {
                assert forall|i: int| 0 <= i < found.len() implies
                    (#[trigger] found[i]).username@ == query.username@ by {
                    assert(starts_with(found[i].row(), key@));
                    assert(found[i].row().take(1)[0] == found[i].row()[0]);
                }
            }
        }
        r
    }

    fn update_notifications_statement(
        &self,
        notification: &RequestUpdateNotification,
    ) -> (action: Action) {
        self.repository.update_statement(&Notification::from_update(notification))
    }

    fn update_notifications(
        &self,
        notification: &RequestUpdateNotification,
        reply: &StoreReply,
    ) -> (r: AppResult<Notification>) {
        self.repository.update(Notification::from_update(notification), reply)
    }
}

} // verus!
