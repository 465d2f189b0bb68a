pub mod budget;
pub mod portfolio;
