//! What a caller sends to the topic service.

use crate::common::result::{AppError, AppResult};
use crate::common::types::{Timestamp, Timeuuid};
use crate::common::validation::require_min_length;
use crate::store::schema::EntityKind;
use vstd::prelude::*;
use vstd::string::StringExecFns;

verus! {

/// A request to create a topic.
#[derive(Debug, Clone, PartialEq, Eq)]
pub struct RequestCreateTopic {
    pub topic_name: String,
    /// At least three characters where given.
    pub topic_description: Option<String>,
    pub topic_owners: Vec<String>,
    pub topic_admins: Vec<String>,
}

impl RequestCreateTopic {
    /// Whether the request passes validation.
    pub open spec fn valid(&self) -> bool {
        self.topic_description matches Some(text) ==> text@.len() >= 3
    }

    /// Validates the request and hands it on unchanged.
    pub fn try_into_domain(self) -> (r: AppResult<Self>)
        ensures
            self.valid() ==> r == Ok::<Self, AppError>(self),
            !self.valid() ==> r matches Err(AppError::BadRequest { .. }),
    {
        match &self.topic_description {
            Some(text) => {
                match require_min_length("topic_description", text.as_str(), 3) {
                    Ok(_) => (),
                    Err(err) => {
                        return Err(err);
                    },
                }
            },
            None => (),
        }
        Ok(self)
    }
}

/// A request for the topics of one partition.
#[derive(Debug, Clone, PartialEq, Eq)]
pub struct RequestGetTopicByPartitionKey {
    pub topic_id: Timeuuid,
}

impl RequestGetTopicByPartitionKey {
    /// Validates the request and hands it on unchanged. Nothing is asked of
    /// an identifier, so every request passes.
    pub fn try_into_domain(self) -> (r: AppResult<Self>)
        ensures
            r == Ok::<Self, AppError>(self),
    {
        Ok(self)
    }
}

/// A request for the topics that carry a name.
#[derive(Debug, Clone, PartialEq, Eq)]
pub struct RequestGetTopicByIndexKey {
    pub topic_name: String,
}

/// A request for the one topic with a partition and clustering key.
#[derive(Debug, Clone, PartialEq, Eq)]
pub struct RequestGetTopicByPrimaryKey {
    pub topic_id: Timeuuid,
    pub created_at: Timestamp,
}

/// Why a topic lookup did not succeed.
#[derive(Debug, Clone, Copy, PartialEq, Eq, Structural)]
pub enum RequestFindTopicError {
    TopicNotFound,
}

impl RequestFindTopicError {
    /// The error as the service reports it.
    pub fn into_app_error(self) -> (e: AppError)
        ensures
            e == AppError::NotFound(EntityKind::Topic),
    {
        AppError::NotFound(EntityKind::Topic)
    }

    /// The text shown to a caller.
    pub fn message(&self) -> (text: String)
        ensures
            text@ == "Topic not found"@,
    {
        String::from_str("Topic not found")
    }
}

/// A change to a topic. It names the row by its key columns. Either it
/// asks for list mutations, or it overwrites the row: then every column it
/// leaves out is written as its default.
#[derive(Debug, Clone, PartialEq, Eq)]
pub struct RequestUpdateTopic {
    pub topic_id: Timeuuid,
    pub created_at: Timestamp,
    pub topic_name: Option<String>,
    pub topic_description: Option<String>,
    pub push_to_owners: Option<Vec<String>>,
    pub pop_to_owners: Option<Vec<String>>,
    pub push_to_admins: Option<Vec<String>>,
    pub pop_to_admins: Option<Vec<String>>,
}

impl RequestUpdateTopic {
    /// Whether the request asks for any list mutation.
    pub open spec fn mutates_lists(&self) -> bool {
        self.push_to_owners is Some || self.pop_to_owners is Some || self.push_to_admins is Some
            || self.pop_to_admins is Some
    }

    /// Validates the request and hands it on unchanged. No rule is attached
    /// to any field, so every request passes.
    pub fn try_into_domain(self) -> (r: AppResult<Self>)
        ensures
            r == Ok::<Self, AppError>(self),
    {
        Ok(self)
    }
}

} // verus!
