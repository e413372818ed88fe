pub mod builder;
pub mod patterns;
pub mod profile;
pub mod runtime;

pub use profile::{LedProfile, TICK_MS, VP_LED_PWM_CYCLE};
