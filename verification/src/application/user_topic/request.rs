//! What a caller sends to the user topic service.

use crate::common::result::{AppError, AppResult};
use crate::common::types::Timeuuid;
use crate::store::schema::EntityKind;
use vstd::prelude::*;
use vstd::string::StringExecFns;

verus! {

/// A request to write a user topic.
#[derive(Debug, Clone, PartialEq, Eq)]
pub struct RequestUpdateUserTopic {
    pub topic_id: Timeuuid,
    pub username: String,
}

impl RequestUpdateUserTopic {
    /// Validates the request and hands it on unchanged. No rule is attached
    /// to any field, so every request passes.
    pub fn try_into_domain(self) -> (r: AppResult<Self>)
        ensures
            r == Ok::<Self, AppError>(self),
    {
        Ok(self)
    }
}

/// A request for the user topics of one partition. The partition is named
/// by its key, the topic; the user name is no key of the table and takes no
/// part in the lookup.
#[derive(Debug, Clone, PartialEq, Eq)]
pub struct RequestGetTopicsByUsername {
    pub topic_id: Timeuuid,
    pub username: String,
}

impl RequestGetTopicsByUsername {
    /// Validates the request and hands it on unchanged. No rule is attached
    /// to any field, so every request passes.
    pub fn try_into_domain(self) -> (r: AppResult<Self>)
        ensures
            r == Ok::<Self, AppError>(self),
    {
        Ok(self)
    }
}

/// Why a lookup of user topics did not succeed.
#[derive(Debug, Clone, Copy, PartialEq, Eq, Structural)]
pub enum RequestFindLatestMessageError {
    LatestMessageNotFound,
}

impl RequestFindLatestMessageError {
    /// The error as the service reports it.
    pub fn into_app_error(self) -> (e: AppError)
        ensures
            e == AppError::NotFound(EntityKind::UserTopic),
    {
        AppError::NotFound(EntityKind::UserTopic)
    }

    /// The text shown to a caller.
    pub fn message(&self) -> (text: String)
        ensures
            text@ == "LatestMessage not found"@,
    {
        String::from_str("LatestMessage not found")
    }
}

} // verus!
