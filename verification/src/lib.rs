pub mod attitude;
pub mod board;
pub mod config;
pub mod ffi;
pub mod hid;
pub mod input;
pub mod led;
pub mod motion;
pub mod power;
pub mod report;
pub mod route;
pub mod runtime;
pub mod stubs;
pub mod sync;
pub mod text;
pub mod utils;
