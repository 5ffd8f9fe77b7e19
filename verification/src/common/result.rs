//! The error kinds every operation reports.

use crate::application::latest_message::request as latest_message;
use crate::application::notification::request as notification;
use crate::application::topic::request as topic;
use crate::application::topic_message::request as topic_message;
use crate::application::topic_user::request as topic_user;
use crate::application::user_topic::request as user_topic;
use crate::store::schema::EntityKind;
use vstd::prelude::*;
use vstd::string::StringExecFns;

verus! {

/// What a caller is told when an operation does not succeed.
#[derive(Debug, Clone, PartialEq, Eq)]
pub enum AppError {
    /// The request did not pass validation; `msg` says why.
    BadRequest { msg: String },
    /// A key lookup matched no row of the named entity.
    NotFound(EntityKind),
    /// The store failed, rejected the statement or answered with something
    /// that cannot be read. No store-internal detail is carried.
    InternalServerError,
    /// A schema statement failed while the store was being prepared.
    MigrationFailed,
}

/// The result of an operation of this library.
pub type AppResult<T> = Result<T, AppError>;

impl AppError {
    /// The text shown to a caller for this error.
    pub open spec fn message_text(self) -> Seq<char> {
        match self {
            AppError::BadRequest { msg } => msg@,
            AppError::NotFound(EntityKind::Topic) => "Topic not found"@,
            AppError::NotFound(_) => "LatestMessage not found"@,
            AppError::InternalServerError => "Internal Server Error"@,
            AppError::MigrationFailed => "Migration failed"@,
        }
    }

    /// Renders the error for a caller.
    pub fn message(&self) -> (text: String)
        ensures
            text@ == self.message_text(),
    {
        match self {
            AppError::BadRequest { msg } => msg.clone(),
            AppError::NotFound(EntityKind::Topic) => {
                topic::RequestFindTopicError::TopicNotFound.message()
            },
            AppError::NotFound(EntityKind::TopicMessage) => {
                topic_message::RequestFindLatestMessageError::LatestMessageNotFound.message()
            },
            AppError::NotFound(EntityKind::LatestMessage) => {
                latest_message::RequestFindLatestMessageError::LatestMessageNotFound.message()
            },
            AppError::NotFound(EntityKind::Notification) => {
                notification::RequestFindLatestMessageError::LatestMessageNotFound.message()
            },
            AppError::NotFound(EntityKind::TopicUser) => {
                topic_user::RequestFindLatestMessageError::LatestMessageNotFound.message()
            },
            AppError::NotFound(EntityKind::UserTopic) => {
                user_topic::RequestFindLatestMessageError::LatestMessageNotFound.message()
            },
            AppError::InternalServerError => String::from_str("Internal Server Error"),
            AppError::MigrationFailed => String::from_str("Migration failed"),
        }
    }
}

} // verus!
