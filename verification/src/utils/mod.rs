pub mod clock;
pub mod critical;
pub mod global;
pub mod logger;
