//! Message and enum types exchanged with callers.

pub mod common;
pub mod service;
pub mod shared;
