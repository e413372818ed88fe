pub mod api;
pub mod sender;
pub mod types;
