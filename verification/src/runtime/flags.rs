use vstd::prelude::*;

use crate::attitude::types::SflpGameRotationRaw;

verus! {

/// Subsystems whose state changed since the main loop last looked.
#[derive(Clone, Copy, Debug, PartialEq, Eq, Structural)]
pub struct DirtyFlags {
    pub input: bool,
    pub motion: bool,
    pub report: bool,
    pub power: bool,
    pub config: bool,
}

impl DirtyFlags {
    pub open spec fn spec_any(self) -> bool {
        self.input || self.motion || self.report || self.power || self.config
    }

    #[verifier::when_used_as_spec(spec_any)]
    pub fn any(self) -> (b: bool)
        ensures
            b == self.spec_any(),
    {
        self.input || self.motion || self.report || self.power || self.config
    }
}

impl Default for DirtyFlags {
    fn default() -> (f: Self)
        ensures
            !f.input && !f.motion && !f.report && !f.power && !f.config,
    {
        DirtyFlags { input: false, motion: false, report: false, power: false, config: false }
    }
}

/// Work the main loop still owes.
#[derive(Clone, Copy, Debug, PartialEq, Eq, Structural)]
pub struct PendingFlags {
    pub events: bool,
    pub hid_retry: bool,
    pub imu_fifo_read: bool,
    pub vendor_rx: bool,
    pub config_save: bool,
    pub power_recheck: bool,
}

impl PendingFlags {
    pub open spec fn spec_any(self) -> bool {
        self.events || self.hid_retry || self.imu_fifo_read || self.vendor_rx || self.config_save
            || self.power_recheck
    }

    #[verifier::when_used_as_spec(spec_any)]
    pub fn any(self) -> (b: bool)
        ensures
            b == self.spec_any(),
    {
        self.events || self.hid_retry || self.imu_fifo_read || self.vendor_rx || self.config_save
            || self.power_recheck
    }
}

impl Default for PendingFlags {
    fn default() -> (f: Self)
        ensures
            !f.events && !f.hid_retry && !f.imu_fifo_read && !f.vendor_rx && !f.config_save
                && !f.power_recheck,
    {
        PendingFlags {
            events: false,
            hid_retry: false,
            imu_fifo_read: false,
            vendor_rx: false,
            config_save: false,
            power_recheck: false,
        }
    }
}

/// The newest rotation sample from the IMU.
#[derive(Clone, Copy, Debug, PartialEq, Eq, Structural)]
pub struct LatestImuSample {
    pub raw: SflpGameRotationRaw,
    pub timestamp_ms: u32,
    pub valid: bool,
}

impl Default for LatestImuSample {
    fn default() -> (s: Self)
        ensures
            s.raw == (SflpGameRotationRaw { x: 0, y: 0, z: 0 }),
            s.timestamp_ms == 0,
            !s.valid,
    {
        LatestImuSample {
            raw: SflpGameRotationRaw { x: 0, y: 0, z: 0 },
            timestamp_ms: 0,
            valid: false,
        }
    }
}

} // verus!
