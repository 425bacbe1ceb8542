pub mod health;
pub mod metrics;
