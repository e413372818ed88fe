pub mod pending;
pub mod types;
