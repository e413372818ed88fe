pub mod spsc;
