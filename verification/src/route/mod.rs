use vstd::prelude::*;
use vstd::std_specs::convert::FromSpecImpl;

verus! {

/// Wire code of a HID route (`vp_hid_route_t` on the C side).
pub type HidRouteCode = u8;

/// Wire code of a USB device state (`vp_usb_state_t` on the C side).
pub type UsbStateCode = u8;

pub const VP_HID_ROUTE_NONE: u8 = 0;

pub const VP_HID_ROUTE_BLE: u8 = 1;

pub const VP_HID_ROUTE_DONGLE_2G4: u8 = 2;

pub const VP_HID_ROUTE_USB: u8 = 3;

pub const VP_USB_STATE_DETACHED: u8 = 0;

pub const VP_USB_STATE_ATTACHED: u8 = 1;

pub const VP_USB_STATE_CONFIGURED: u8 = 2;

pub const VP_USB_STATE_SUSPENDED: u8 = 3;

pub const VP_USB_STATE_ERROR: u8 = 4;

#[derive(Clone, Copy, Debug, PartialEq, Eq, Structural)]
pub enum HidRoute {
    NoRoute,
    Ble,
    Dongle2G4,
    Usb,
}

pub open spec fn spec_route_code(r: HidRoute) -> u8 {
    match r {
        HidRoute::NoRoute => VP_HID_ROUTE_NONE,
        HidRoute::Ble => VP_HID_ROUTE_BLE,
        HidRoute::Dongle2G4 => VP_HID_ROUTE_DONGLE_2G4,
        HidRoute::Usb => VP_HID_ROUTE_USB,
    }
}

/// Route named by a wire code; unknown codes mean no route.
pub open spec fn spec_route_from_code(v: u8) -> HidRoute {
    if v == VP_HID_ROUTE_BLE {
        HidRoute::Ble
    } else if v == VP_HID_ROUTE_DONGLE_2G4 {
        HidRoute::Dongle2G4
    } else if v == VP_HID_ROUTE_USB {
        HidRoute::Usb
    } else {
        HidRoute::NoRoute
    }
}

impl HidRoute {
    pub fn as_ffi(self) -> (code: HidRouteCode)
        ensures
            code == spec_route_code(self),
    {
        match self {
            HidRoute::NoRoute => VP_HID_ROUTE_NONE,
            HidRoute::Ble => VP_HID_ROUTE_BLE,
            HidRoute::Dongle2G4 => VP_HID_ROUTE_DONGLE_2G4,
            HidRoute::Usb => VP_HID_ROUTE_USB,
        }
    }
}

impl From<u8> for HidRoute {
    fn from(value: u8) -> (r: Self) {
        if value == VP_HID_ROUTE_BLE {
            HidRoute::Ble
        } else if value == VP_HID_ROUTE_DONGLE_2G4 {
            HidRoute::Dongle2G4
        } else if value == VP_HID_ROUTE_USB {
            HidRoute::Usb
        } else {
            HidRoute::NoRoute
        }
    }
}

impl FromSpecImpl<u8> for HidRoute {
    open spec fn obeys_from_spec() -> bool {
        true
    }

    open spec fn from_spec(v: u8) -> Self {
        spec_route_from_code(v)
    }
}

/// Every route survives the trip to its wire code and back.
pub proof fn lemma_route_code_roundtrip(r: HidRoute)
    ensures
        spec_route_from_code(spec_route_code(r)) == r,
{
}

#[derive(Clone, Copy, Debug, PartialEq, Eq, Structural)]
pub enum UsbState {
    Detached,
    Attached,
    Configured,
    Suspended,
    Error,
}

/// USB state named by a wire code; unknown codes mean detached.
pub open spec fn spec_usb_state_from_code(v: u8) -> UsbState {
    if v == VP_USB_STATE_ATTACHED {
        UsbState::Attached
    } else if v == VP_USB_STATE_CONFIGURED {
        UsbState::Configured
    } else if v == VP_USB_STATE_SUSPENDED {
        UsbState::Suspended
    } else if v == VP_USB_STATE_ERROR {
        UsbState::Error
    } else {
        UsbState::Detached
    }
}

impl From<u8> for UsbState {
    fn from(value: u8) -> (r: Self) {
        if value == VP_USB_STATE_ATTACHED {
            UsbState::Attached
        } else if value == VP_USB_STATE_CONFIGURED {
            UsbState::Configured
        } else if value == VP_USB_STATE_SUSPENDED {
            UsbState::Suspended
        } else if value == VP_USB_STATE_ERROR {
            UsbState::Error
        } else {
            UsbState::Detached
        }
    }
}

impl FromSpecImpl<u8> for UsbState {
    open spec fn obeys_from_spec() -> bool {
        true
    }

    open spec fn from_spec(v: u8) -> Self {
        spec_usb_state_from_code(v)
    }
}

/// Chooses the transport for outgoing HID reports.
pub struct HidRouter {
    /// The BLE link exists; input notifications may not be usable yet.
    ble_connected: bool,
    /// Security and notifications are set up; only then does BLE take part in
    /// routing.
    ble_input_ready: bool,
    dongle_connected: bool,
    usb_state: UsbState,
}

impl HidRouter {
    /// Readiness is never recorded without a link.
    #[verifier::type_invariant]
    closed spec fn router_inv(&self) -> bool {
        self.ble_input_ready ==> self.ble_connected
    }

    /// Whatever order the setters were called in, the readiness flag is never
    /// set while the link is down.
    pub open spec fn spec_consistent(&self) -> bool {
        self.spec_ble_ready_flag() ==> self.spec_ble_connected()
    }

    /// Every router is consistent: the readiness flag is never set without
    /// a link.
    pub proof fn lemma_consistent(&self)
        ensures
            self.spec_consistent(),
    {
    }

    pub closed spec fn spec_ble_connected(&self) -> bool {
        self.ble_connected
    }

    /// Readiness flag, as last set; it is never set while the link is down.
    pub closed spec fn spec_ble_ready_flag(&self) -> bool {
        self.ble_input_ready && self.ble_connected
    }

    pub closed spec fn spec_dongle_connected(&self) -> bool {
        self.dongle_connected
    }

    pub closed spec fn spec_usb_state(&self) -> UsbState {
        self.usb_state
    }

    /// BLE can carry input: connected and ready.
    pub open spec fn spec_ble_input_ready(&self) -> bool {
        self.spec_ble_connected() && self.spec_ble_ready_flag()
    }

    pub open spec fn spec_usb_configured(&self) -> bool {
        self.spec_usb_state() == UsbState::Configured
    }

    /// The route a report takes: USB when configured, else BLE when ready,
    /// else none.
    pub open spec fn spec_preferred_route(&self) -> HidRoute {
        if self.spec_usb_configured() {
            HidRoute::Usb
        } else if self.spec_ble_input_ready() {
            HidRoute::Ble
        } else {
            HidRoute::NoRoute
        }
    }

    pub fn new() -> (r: Self)
        ensures
            !r.spec_ble_connected(),
            !r.spec_ble_ready_flag(),
            !r.spec_dongle_connected(),
            r.spec_usb_state() == UsbState::Detached,
            r.spec_consistent(),
    {
        Self {
            ble_connected: false,
            ble_input_ready: false,
            dongle_connected: false,
            usb_state: UsbState::Detached,
        }
    }

    /// A dropped link also drops input readiness.
    pub fn set_ble_connected(&mut self, connected: bool)
        ensures
            final(self).spec_ble_connected() == connected,
            final(self).spec_ble_ready_flag() == (connected && old(self).spec_ble_ready_flag()),
            final(self).spec_dongle_connected() == old(self).spec_dongle_connected(),
            final(self).spec_usb_state() == old(self).spec_usb_state(),
            final(self).spec_consistent(),
    {
        proof {
            use_type_invariant(&*self);
        }
        if !connected {
            self.ble_input_ready = false;
        }
        self.ble_connected = connected;
    }

    /// Readiness is only recorded while the link exists.
    pub fn set_ble_input_ready(&mut self, ready: bool)
        ensures
            final(self).spec_ble_ready_flag() == (old(self).spec_ble_connected() && ready),
            final(self).spec_ble_connected() == old(self).spec_ble_connected(),
            final(self).spec_dongle_connected() == old(self).spec_dongle_connected(),
            final(self).spec_usb_state() == old(self).spec_usb_state(),
            final(self).spec_consistent(),
    {
        proof {
            use_type_invariant(&*self);
        }
        self.ble_input_ready = if self.ble_connected {
            ready
        } else {
            false
        };
    }

    pub fn set_dongle_connected(&mut self, connected: bool)
        ensures
            final(self).spec_dongle_connected() == connected,
            final(self).spec_ble_connected() == old(self).spec_ble_connected(),
            final(self).spec_ble_ready_flag() == old(self).spec_ble_ready_flag(),
            final(self).spec_usb_state() == old(self).spec_usb_state(),
            final(self).spec_consistent(),
    {
        proof {
            use_type_invariant(&*self);
        }
        self.dongle_connected = connected;
    }

    pub fn set_usb_state(&mut self, state: UsbState)
        ensures
            final(self).spec_usb_state() == state,
            final(self).spec_ble_connected() == old(self).spec_ble_connected(),
            final(self).spec_ble_ready_flag() == old(self).spec_ble_ready_flag(),
            final(self).spec_dongle_connected() == old(self).spec_dongle_connected(),
            final(self).spec_consistent(),
    {
        proof {
            use_type_invariant(&*self);
        }
        self.usb_state = state;
    }

    pub fn is_ble_connected(&self) -> (b: bool)
        ensures
            b == self.spec_ble_connected(),
    {
        self.ble_connected
    }

    pub fn is_ble_input_ready(&self) -> (b: bool)
        ensures
            b == self.spec_ble_input_ready(),
    {
        self.ble_connected && self.ble_input_ready
    }

    pub fn usb_state(&self) -> (s: UsbState)
        ensures
            s == self.spec_usb_state(),
    {
        self.usb_state
    }

    pub fn is_usb_configured(&self) -> (b: bool)
        ensures
            b == self.spec_usb_configured(),
    {
        match self.usb_state {
            UsbState::Configured => true,
            _ => false,
        }
    }

    /// The 2.4 GHz dongle is not routed yet: the wireless route is BLE or none.
    fn preferred_wireless_route(&self) -> (r: HidRoute)
        ensures
            r == (if self.spec_ble_input_ready() {
                HidRoute::Ble
            } else {
                HidRoute::NoRoute
            }),
    {
        if self.is_ble_input_ready() {
            HidRoute::Ble
        } else {
            HidRoute::NoRoute
        }
    }

    pub fn preferred_mouse_route(&self) -> (r: HidRoute)
        ensures
            r == self.spec_preferred_route(),
    {
        if self.is_usb_configured() {
            HidRoute::Usb
        } else {
            self.preferred_wireless_route()
        }
    }

    pub fn preferred_custom_route(&self) -> (r: HidRoute)
        ensures
            r == self.spec_preferred_route(),
    {
        if self.is_usb_configured() {
            HidRoute::Usb
        } else {
            self.preferred_wireless_route()
        }
    }

    pub fn has_mouse_route(&self) -> (b: bool)
        ensures
            b == (self.spec_preferred_route() != HidRoute::NoRoute),
    {
        match self.preferred_mouse_route() {
            HidRoute::NoRoute => false,
            _ => true,
        }
    }

    pub fn has_custom_route(&self) -> (b: bool)
        ensures
            b == (self.spec_preferred_route() != HidRoute::NoRoute),
    {
        match self.preferred_custom_route() {
            HidRoute::NoRoute => false,
            _ => true,
        }
    }

    pub fn has_wireless_connection(&self) -> (b: bool)
        ensures
            b == self.spec_ble_input_ready(),
    {
        self.is_ble_input_ready()
    }

    /// A configured USB link always wins the route.
    pub proof fn lemma_usb_wins(&self)
        requires
            self.spec_usb_configured(),
        ensures
            self.spec_preferred_route() == HidRoute::Usb,
    {
    }
}

impl Default for HidRouter {
    fn default() -> (r: Self)
        ensures
            !r.spec_ble_connected(),
            !r.spec_ble_ready_flag(),
            !r.spec_dongle_connected(),
            r.spec_usb_state() == UsbState::Detached,
    {
        Self::new()
    }
}

} // verus!
