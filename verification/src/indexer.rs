pub mod backfill;
pub mod handlers;
pub mod manager;
pub mod seed;
