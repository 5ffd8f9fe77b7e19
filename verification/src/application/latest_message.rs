//! The latest message service.

pub mod app;
pub mod request;
pub mod response;
