pub mod config;
pub mod encoder;
pub mod types;
