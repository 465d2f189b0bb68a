pub mod organization;
