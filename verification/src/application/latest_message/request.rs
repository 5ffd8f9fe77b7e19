//! What a caller sends to the latest message service.

use crate::common::result::{AppError, AppResult};
use crate::common::types::Timeuuid;
use crate::common::validation::require_min_length;
use crate::store::schema::EntityKind;
use vstd::prelude::*;
use vstd::string::StringExecFns;

verus! {

/// A request to write a latest message.
#[derive(Debug, Clone, PartialEq, Eq)]
pub struct RequestUpdateLatestMessage {
    pub latest_message_id: Timeuuid,
    /// At least three characters.
    pub latest_message_content: String,
    pub topic_id: Timeuuid,
    pub user_id: Timeuuid,
}

impl RequestUpdateLatestMessage {
    /// Whether the request passes validation.
    pub open spec fn valid(&self) -> bool {
        self.latest_message_content@.len() >= 3
    }

    /// Validates the request and hands it on unchanged.
    pub fn try_into_domain(self) -> (r: AppResult<Self>)
        ensures
            self.valid() ==> r == Ok::<Self, AppError>(self),
            !self.valid() ==> r matches Err(AppError::BadRequest { .. }),
    {
        let text = self.latest_message_content.as_str();
        match require_min_length("latest_message_content", text, 3) {
            Ok(_) => Ok(self),
            Err(err) => Err(err),
        }
    }
}

/// A request for the latest message of one user.
#[derive(Debug, Clone, PartialEq, Eq)]
pub struct RequestGetLatestMessagesByUserId {
    pub user_id: Timeuuid,
}

impl RequestGetLatestMessagesByUserId {
    /// Validates the request and hands it on unchanged. No rule is attached
    /// to any field, so every request passes.
    pub fn try_into_domain(self) -> (r: AppResult<Self>)
        ensures
            r == Ok::<Self, AppError>(self),
    {
        Ok(self)
    }
}

/// Why a lookup of latest messages did not succeed.
#[derive(Debug, Clone, Copy, PartialEq, Eq, Structural)]
pub enum RequestFindLatestMessageError {
    LatestMessageNotFound,
}

impl RequestFindLatestMessageError {
    /// The error as the service reports it.
    pub fn into_app_error(self) -> (e: AppError)
        ensures
            e == AppError::NotFound(EntityKind::LatestMessage),
    {
        AppError::NotFound(EntityKind::LatestMessage)
    }

    /// The text shown to a caller.
    pub fn message(&self) -> (text: String)
        ensures
            text@ == "LatestMessage not found"@,
    {
        String::from_str("LatestMessage not found")
    }
}

} // verus!
