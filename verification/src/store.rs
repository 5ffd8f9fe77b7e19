//! The wide-column store as this library sees it: the schema of each table,
//! the values a row holds, the statements that can be submitted and what
//! they mean.

pub mod cql;
pub mod entity;
pub mod memory;
pub mod model;
pub mod schema;
pub mod statement;
pub mod value;
