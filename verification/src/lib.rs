//! Budget and asset-portfolio domain library.

pub mod status;
pub mod text;
pub mod decimal;
pub mod pb;
pub mod converters;
pub mod manager;
