//! What stands between the services and the store.

pub mod persistence;
