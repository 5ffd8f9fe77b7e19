//! Persistence layer for a small graph of messaging entities kept in a
//! partition/clustering-key-addressed wide-column store.
//!
//! The library decides, the caller performs: every repository operation is a
//! pair of functions, one that composes the statement to submit and one that
//! maps what the store handed back to a domain result.

pub mod application;
pub mod common;
pub mod domain;
pub mod infrastructure;
pub mod interfaces;
pub mod store;
