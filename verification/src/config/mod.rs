pub mod flash_region;
pub mod load;
pub mod persist;
pub mod storage;
pub mod store;
pub mod types;
pub mod write_session;
