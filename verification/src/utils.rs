pub mod internal_time;
pub mod keyed;
pub mod text;
pub mod word;
