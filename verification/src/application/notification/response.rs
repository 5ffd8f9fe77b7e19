//! What the notification service shows of a notification.

use crate::common::result::AppResult;
use crate::common::types::{Text, Timestamp};
use crate::domain::notification::entity::{Notification, NotificationView};
use vstd::prelude::*;

verus! {

/// The public face of a notification.
#[derive(Debug, Clone, PartialEq, Eq)]
pub struct PublicNotification {
    pub username: Text,
    pub from_user: Text,
    pub message: Text,
    pub created_at: Timestamp,
}

/// A [`PublicNotification`] as mathematics.
pub struct PublicNotificationView {
    pub username: Seq<char>,
    pub from_user: Seq<char>,
    pub message: Seq<char>,
    pub created_at: i64,
}

impl View for PublicNotification {
    type V = PublicNotificationView;

    open spec fn view(&self) -> PublicNotificationView {
        PublicNotificationView {
            username: self.username@,
            from_user: self.from_user@,
            message: self.message@,
            created_at: self.created_at.0,
        }
    }
}

impl PublicNotificationView {
    /// What is shown of a notification.
    pub open spec fn of(entity: NotificationView) -> PublicNotificationView {
        PublicNotificationView {
            username: entity.username,
            from_user: entity.from_user,
            message: entity.message,
            created_at: entity.created_at,
        }
    }
}

impl PublicNotification {
    /// The public face of a notification. It always exists.
    pub fn try_from(notification: &Notification) -> (r: AppResult<PublicNotification>)
        ensures
            r matches Ok(shown) && shown@ == PublicNotificationView::of(notification@),
    {
        Ok(
            PublicNotification {
                username: notification.username.clone(),
                from_user: notification.from_user.clone(),
                message: notification.message.clone(),
                created_at: notification.created_at,
            },
        )
    }
}

} // verus!
