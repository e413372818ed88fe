use vstd::prelude::*;

verus! {

/// The board's real-time clock. Reading it is done at the C boundary.
pub struct RTC;

} // verus!
