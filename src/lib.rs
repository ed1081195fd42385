pub mod db;
pub mod entity;
pub mod graphql;
pub mod time;
