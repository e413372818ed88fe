pub mod axis;
pub mod trigger;
