//! Business logic, the pure parts of the repositories, validation and
//! identity client helpers.

pub mod biz;
pub mod client;
pub mod repository;
pub mod validate;
