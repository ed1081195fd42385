pub mod database;
pub mod laws;
pub mod store;
