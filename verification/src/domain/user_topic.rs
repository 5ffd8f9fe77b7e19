//! User topics.

pub mod entity;
pub mod repository;
