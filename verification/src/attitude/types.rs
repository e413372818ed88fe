use vstd::prelude::*;

verus! {

/// Game-rotation vector from the IMU sensor fusion block: the x, y and z
/// quaternion components as raw half-precision bit patterns.
#[derive(Debug, Clone, Copy, PartialEq, Eq, Structural)]
pub struct SflpGameRotationRaw {
    pub x: u16,
    pub y: u16,
    pub z: u16,
}

impl Default for SflpGameRotationRaw {
    fn default() -> (r: Self)
        ensures
            r == (SflpGameRotationRaw { x: 0, y: 0, z: 0 }),
    {
        SflpGameRotationRaw { x: 0, y: 0, z: 0 }
    }
}

} // verus!
