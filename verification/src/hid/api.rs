use vstd::prelude::*;

use crate::hid::types::HidSendStatus;

verus! {

/// Status code of a HID send (`vp_hid_send_status_t` on the C side).
pub type HidSendStatusCode = u8;

pub const VP_HID_SEND_SENT: u8 = 0;

pub const VP_HID_SEND_RETRY_LATER: u8 = 1;

pub const VP_HID_SEND_NOT_CONNECTED: u8 = 2;

pub const VP_HID_SEND_FATAL: u8 = 3;

/// Send status named by a C status code; unknown codes are fatal.
pub open spec fn spec_send_status(code: u8) -> HidSendStatus {
    if code == VP_HID_SEND_SENT {
        HidSendStatus::Sent
    } else if code == VP_HID_SEND_RETRY_LATER {
        HidSendStatus::RetryLater
    } else if code == VP_HID_SEND_NOT_CONNECTED {
        HidSendStatus::NotConnected
    } else {
        HidSendStatus::Fatal
    }
}

/// The HID transport as the board exposes it. Sending is done at the C
/// boundary; this type interprets what comes back.
pub struct HidApi;

impl HidApi {
    pub fn map_status(status: HidSendStatusCode) -> (s: HidSendStatus)
        ensures
            s == spec_send_status(status),
    {
        if status == VP_HID_SEND_SENT {
            HidSendStatus::Sent
        } else if status == VP_HID_SEND_RETRY_LATER {
            HidSendStatus::RetryLater
        } else if status == VP_HID_SEND_NOT_CONNECTED {
            HidSendStatus::NotConnected
        } else {
            HidSendStatus::Fatal
        }
    }
}

} // verus!
