//! Topic users.

pub mod entity;
pub mod repository;
