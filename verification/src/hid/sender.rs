use vstd::prelude::*;

use crate::hid::types::{HidSendStatus, MouseReport};

verus! {

/// Something that hands mouse reports to a transport. The transports live at
/// the board boundary; nothing is promised of what they return.
pub trait HidSender {
    fn send_mouse_report(&mut self, report: MouseReport) -> HidSendStatus;
}

/// Sends mouse reports over BLE.
pub struct BleHidSender;

impl BleHidSender {
    pub fn new() -> (s: Self) {
        BleHidSender
    }
}

impl Default for BleHidSender {
    fn default() -> (s: Self) {
        BleHidSender
    }
}

} // verus!
