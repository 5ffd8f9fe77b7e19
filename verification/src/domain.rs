//! The entities and how each is laid out as a row.

pub mod latest_message;
pub mod notification;
pub mod topic;
pub mod topic_message;
pub mod topic_user;
pub mod user_topic;
