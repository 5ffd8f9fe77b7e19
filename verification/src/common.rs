//! Plain values and result types shared by every layer.

pub mod generate;
pub mod result;
pub mod types;
pub mod validation;
