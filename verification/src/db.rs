pub mod account;
pub mod account_verified_component;
pub mod models;
pub mod note_verified_script;
