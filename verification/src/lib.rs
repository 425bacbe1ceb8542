pub mod cli;
pub mod config;
pub mod db;
pub mod http;
pub mod indexer;
pub mod metrics;
pub mod rpc;
pub mod utils;
