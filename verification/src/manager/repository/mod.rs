//! The parts of the repositories that do not touch the database.

pub mod fx_rates;
pub mod portfolio;
pub mod invest_assets;
pub mod budgets;
