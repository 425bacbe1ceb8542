pub mod collector;
pub mod latest_block;
