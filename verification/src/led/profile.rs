use vstd::prelude::*;

verus! {

/// Duration of one PWM frame; divides one second.
pub const TICK_MS: usize = 10;

/// PWM counter period of the status LED timer: the compare value of full
/// brightness. The platform's C API defines it as `VP_LED_PWM_CYCLE` for its
/// LED timer; this build takes that period to be 1000 counts, and the value
/// here must be kept equal to the platform's.
pub const VP_LED_PWM_CYCLE: u32 = 1000;

/// A precomputed LED frame sequence: the first `len` entries of `data` are
/// played, once or in a loop.
pub struct LedProfile<const N: usize> {
    pub data: [u32; N],
    pub len: usize,
    pub is_loop: bool,
}

impl<const N: usize> LedProfile<N> {
    /// The frames that are played.
    pub fn as_slice(&self) -> (s: &[u32])
        requires
            self.len <= N,
        ensures
            s@ == self.data@.subrange(0, self.len as int),
    {
        &self.data.as_slice()[0..self.len]
    }

    /// How long one pass of the sequence lasts.
    pub fn playback_ms(&self) -> (ms: u32)
        requires
            self.len * TICK_MS <= u32::MAX,
        ensures
            ms == self.len * TICK_MS,
    {
        (self.len * TICK_MS) as u32
    }
}

} // verus!
