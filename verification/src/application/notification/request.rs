//! What a caller sends to the notification service.

use crate::common::result::{AppError, AppResult};
use crate::common::types::Timeuuid;
use crate::store::schema::EntityKind;
use vstd::prelude::*;
use vstd::string::StringExecFns;

verus! {

/// A request to write a notification.
#[derive(Debug, Clone, PartialEq, Eq)]
pub struct RequestUpdateNotification {
    pub topic_id: Timeuuid,
    pub username: String,
    pub from_user: String,
    pub message: String,
}

impl RequestUpdateNotification {
    /// Validates the request and hands it on unchanged. No rule is attached
    /// to any field, so every request passes.
    pub fn try_into_domain(self) -> (r: AppResult<Self>)
        ensures
            r == Ok::<Self, AppError>(self),
    {
        Ok(self)
    }
}

/// A request for the notifications of one user.
#[derive(Debug, Clone, PartialEq, Eq)]
pub struct RequestGetNotificationByUsername {
    pub username: String,
}

impl RequestGetNotificationByUsername {
    /// Validates the request and hands it on unchanged. No rule is attached
    /// to any field, so every request passes.
    pub fn try_into_domain(self) -> (r: AppResult<Self>)
        ensures
            r == Ok::<Self, AppError>(self),
    {
        Ok(self)
    }
}

/// Why a lookup of notifications did not succeed.
#[derive(Debug, Clone, Copy, PartialEq, Eq, Structural)]
pub enum RequestFindLatestMessageError {
    LatestMessageNotFound,
}

impl RequestFindLatestMessageError {
    /// The error as the service reports it.
    pub fn into_app_error(self) -> (e: AppError)
        ensures
            e == AppError::NotFound(EntityKind::Notification),
    {
        AppError::NotFound(EntityKind::Notification)
    }

    /// The text shown to a caller.
    pub fn message(&self) -> (text: String)
        ensures
            text@ == "LatestMessage not found"@,
    {
        String::from_str("LatestMessage not found")
    }
}

} // verus!
