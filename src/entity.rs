pub mod message;
pub mod user;
