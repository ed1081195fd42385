pub mod id;
pub mod schema;
pub mod types;
