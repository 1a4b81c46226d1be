//! A student record with a validating constructor and its plain-text layout,
//! together with a handful of small string, arithmetic and trait utilities.

pub mod student;
pub mod text;
pub mod arithmetic;
pub mod ownership;
pub mod summary;
pub mod message;
pub mod profile;
