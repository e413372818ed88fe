use vstd::prelude::*;

use crate::hid::types::{CustomReport, HidSendStatus, MouseReport};
use crate::power::PowerState;

verus! {

/// Work the main loop hands to the board side.
#[allow(inconsistent_fields)]
#[derive(Clone, Copy, Debug, PartialEq, Eq)]
pub enum RuntimeCommand {
    SendMouse { route: u8, report: MouseReport },
    SendVendor { route: u8, report: CustomReport },
    RequestPowerState { target: PowerState },
    ReadImuFifo { max_samples: u16 },
}

/// What came of a `RuntimeCommand`.
#[allow(inconsistent_fields)]
#[derive(Clone, Copy, Debug, PartialEq, Eq)]
pub enum RuntimeCommandResult {
    MouseSent { route: u8, report: MouseReport, status: HidSendStatus },
    VendorSent { route: u8, report: CustomReport, status: HidSendStatus },
    PowerStateRequestDone { target: PowerState, accepted: bool },
    ImuFifoReadRequested { status: u8 },
}

} // verus!
