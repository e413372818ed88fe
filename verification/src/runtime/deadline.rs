use vstd::prelude::*;

use crate::route::UsbState;

verus! {

/// Half of the 32-bit millisecond clock's range.
pub const WRAP_HALF: u32 = 0x8000_0000;

/// `deadline` has been reached at `now`, on a clock that wraps every 2^32 ms:
/// it lies at most half the range behind `now`.
pub open spec fn spec_deadline_due(now: u32, deadline: u32) -> bool {
    now.wrapping_sub(deadline) < WRAP_HALF
}

pub fn deadline_due(now: u32, deadline: u32) -> (due: bool)
    ensures
        due == spec_deadline_due(now, deadline),
{
    now.wrapping_sub(deadline) < WRAP_HALF
}

/// Milliseconds to wait for `deadline`: one when it is due, else the distance
/// to it, at least one.
pub fn deadline_remaining_ms(now: u32, deadline: u32) -> (ms: u32)
    ensures
        spec_deadline_due(now, deadline) ==> ms == 1,
        !spec_deadline_due(now, deadline) ==> ms == deadline.wrapping_sub(now),
        ms >= 1,
{
    if deadline_due(now, deadline) {
        1
    } else {
        let d = deadline.wrapping_sub(now);
        proof {
            assert(now.wrapping_sub(deadline) >= WRAP_HALF ==> deadline.wrapping_sub(now) >= 1)
                by (bit_vector);
        }
        if d > 1 {
            d
        } else {
            1
        }
    }
}

/// A deadline that is not due lies less than half the range ahead.
pub proof fn lemma_pending_deadline_is_near(now: u32, deadline: u32)
    requires
        !spec_deadline_due(now, deadline),
    ensures
        1 <= deadline.wrapping_sub(now) <= WRAP_HALF,
{
    assert(now.wrapping_sub(deadline) >= 0x8000_0000u32 ==> 1 <= deadline.wrapping_sub(now)
        <= 0x8000_0000u32) by (bit_vector);
}

/// A deadline set `delay` ms after `now` is due exactly after `delay` ms,
/// for any delay below half the range.
pub proof fn lemma_deadline_due_after_delay(now: u32, delay: u32, elapsed: u32)
    requires
        delay < WRAP_HALF,
        elapsed < WRAP_HALF,
    ensures
        spec_deadline_due(now.wrapping_add(elapsed), now.wrapping_add(delay)) == (elapsed
            >= delay),
{
    assert(delay < 0x8000_0000u32 && elapsed < 0x8000_0000u32 ==> ((now.wrapping_add(
        elapsed,
    )).wrapping_sub(now.wrapping_add(delay)) < 0x8000_0000u32) == (elapsed >= delay))
        by (bit_vector);
}

/// Lower-case name of a USB state, as the log prints it.
pub fn usb_state_log_name(state: UsbState) -> (name: &'static str)
    ensures
        state == UsbState::Detached ==> name@ == "detached"@,
        state == UsbState::Attached ==> name@ == "attached"@,
        state == UsbState::Configured ==> name@ == "configured"@,
        state == UsbState::Suspended ==> name@ == "suspended"@,
        state == UsbState::Error ==> name@ == "error"@,
{
    match state {
        UsbState::Detached => "detached",
        UsbState::Attached => "attached",
        UsbState::Configured => "configured",
        UsbState::Suspended => "suspended",
        UsbState::Error => "error",
    }
}

} // verus!
