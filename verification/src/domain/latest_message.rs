//! Latest messages.

pub mod entity;
pub mod repository;
