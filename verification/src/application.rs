//! Requests, responses and the service of each entity.

pub mod latest_message;
pub mod notification;
pub mod topic;
pub mod topic_message;
pub mod topic_user;
pub mod user_topic;
