//! Entry points used by the dispatch layer.

pub mod actions;
pub mod reply;
pub mod topic_handler;
