//! The notification entity and its row.

use crate::application::notification::request::{
    RequestFindLatestMessageError, RequestUpdateNotification,
};
use crate::common::result::AppError;
use crate::common::types::{Text, Timestamp, Timeuuid};
use crate::store::entity::Entity;
use crate::store::schema::EntityKind;
use crate::store::statement::typed_row;
use crate::store::value::{CqlValue, CqlValueView, Row};
use vstd::prelude::*;

verus! {

/// A notification for a user. The partition key is `username`, the
/// clustering key is `created_at`.
#[derive(Debug, Clone, PartialEq, Eq)]
pub struct Notification {
    pub topic_id: Timeuuid,
    pub username: Text,
    pub from_user: Text,
    pub message: Text,
    pub created_at: Timestamp,
}

/// A [`Notification`] as mathematics.
pub struct NotificationView {
    pub topic_id: u128,
    pub username: Seq<char>,
    pub from_user: Seq<char>,
    pub message: Seq<char>,
    pub created_at: i64,
}

impl View for Notification {
    type V = NotificationView;

    open spec fn view(&self) -> NotificationView {
        NotificationView {
            topic_id: self.topic_id.0,
            username: self.username@,
            from_user: self.from_user@,
            message: self.message@,
            created_at: self.created_at.0,
        }
    }
}

impl NotificationView {
    /// The row that holds the notification.
    pub open spec fn row(self) -> Seq<CqlValueView> {
        seq![
            CqlValueView::Text(self.username),
            CqlValueView::Timestamp(self.created_at),
            CqlValueView::Timeuuid(self.topic_id),
            CqlValueView::Text(self.from_user),
            CqlValueView::Text(self.message),
        ]
    }

    /// The values of the partition key.
    pub open spec fn partition_key(self) -> Seq<CqlValueView> {
        seq![CqlValueView::Text(self.username)]
    }

    /// The notification a row holds, if the row has the shape of a
    /// notification row. A null anywhere makes the row unreadable.
    pub open spec fn of_row(row: Seq<CqlValueView>) -> Option<NotificationView> {
        if row.len() == 5
            && row[0].text() is Some
            && row[1].timestamp() is Some
            && row[2].timeuuid() is Some
            && row[3].text() is Some
            && row[4].text() is Some {
            Some(
                NotificationView {
                    username: row[0].text().unwrap(),
                    created_at: row[1].timestamp().unwrap(),
                    topic_id: row[2].timeuuid().unwrap(),
                    from_user: row[3].text().unwrap(),
                    message: row[4].text().unwrap(),
                },
            )
        } else {
            None
        }
    }
}

/// The row of a notification is a typed row of its table, starts with its
/// partition key and reads back as itself.
pub proof fn lemma_notification_row(entity: NotificationView)
    ensures
        typed_row(EntityKind::Notification, entity.row()),
        NotificationView::of_row(entity.row()) == Some(entity),
        entity.row().take(1) == entity.partition_key(),
{
    assert(entity.row().take(1) =~= entity.partition_key());
}

impl Notification {
    /// The row that holds the notification.
    pub fn to_row(&self) -> (row: Row)
        ensures
            row@ == self@.row(),
    {
        let mut values: Vec<CqlValue> = Vec::new();
        values.push(CqlValue::Text(self.username.clone()));
        values.push(CqlValue::Timestamp(self.created_at));
        values.push(CqlValue::Timeuuid(self.topic_id));
        values.push(CqlValue::Text(self.from_user.clone()));
        values.push(CqlValue::Text(self.message.clone()));
        let row = Row { values };
        assert(row@ =~= self@.row());
        row
    }

    /// The notification a row holds, if the row has the shape of a
    /// notification row.
    pub fn from_row(row: &Row) -> (r: Option<Notification>)
        ensures
            match r {
                Some(entity) => NotificationView::of_row(row@) == Some(entity@),
                None => NotificationView::of_row(row@) is None,
            },
    {
        if row.values.len() != 5 {
            return None;
        }
        assert(forall|i: int| 0 <= i < 5 ==> row@[i] == row.values[i]@);
        let username = row.values[0].as_text()?;
        let created_at = row.values[1].as_timestamp()?;
        let topic_id = row.values[2].as_timeuuid()?;
        let from_user = row.values[3].as_text()?;
        let message = row.values[4].as_text()?;
        Some(Notification { topic_id, username, from_user, message, created_at })
    }

    /// A copy of the notification.
    pub fn duplicate(&self) -> (copy: Notification)
        ensures
            copy@ == self@,
    {
        Notification {
            topic_id: self.topic_id,
            username: self.username.clone(),
            from_user: self.from_user.clone(),
            message: self.message.clone(),
            created_at: self.created_at,
        }
    }

    /// What an update writes: the columns the request names; every column
    /// it leaves out holds its default.
    pub open spec fn updated(request: &RequestUpdateNotification) -> NotificationView {
        NotificationView {
            topic_id: request.topic_id.0,
            username: request.username@,
            from_user: request.from_user@,
            message: request.message@,
            created_at: 0,
        }
    }

    /// The notification an update writes.
    pub fn from_update(request: &RequestUpdateNotification) -> (entity: Notification)
        ensures
            entity@ == Notification::updated(request),
    {
        Notification {
            topic_id: request.topic_id,
            username: request.username.clone(),
            from_user: request.from_user.clone(),
            message: request.message.clone(),
            created_at: Timestamp::epoch(),
        }
    }
}

impl Entity for Notification {
    open spec fn kind() -> EntityKind {
        EntityKind::Notification
    }

    open spec fn row(&self) -> Seq<CqlValueView> {
        self@.row()
    }

    open spec fn readable(row: Seq<CqlValueView>) -> bool {
        NotificationView::of_row(row) is Some
    }

    open spec fn canonical(row: Seq<CqlValueView>) -> Seq<CqlValueView> {
        NotificationView::of_row(row).unwrap().row()
    }

    fn entity_kind() -> (kind: EntityKind) {
        EntityKind::Notification
    }

    fn not_found() -> (e: AppError) {
        RequestFindLatestMessageError::LatestMessageNotFound.into_app_error()
    }

    fn to_row(&self) -> (row: Row) {
        Notification::to_row(self)
    }

    fn from_row(row: &Row) -> (r: Option<Self>) {
        Notification::from_row(row)
    }

    proof fn lemma_row(&self) {
        lemma_notification_row(self@);
    }

    proof fn lemma_canonical(row: Seq<CqlValueView>) {
        let entity = NotificationView::of_row(row).unwrap();
        lemma_notification_row(entity);
        assert(entity.row() =~= row);
    }
}

} // verus!
