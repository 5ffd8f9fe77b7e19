//! Topics.

pub mod entity;
pub mod repository;
