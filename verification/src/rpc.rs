pub mod client;
pub mod error;
