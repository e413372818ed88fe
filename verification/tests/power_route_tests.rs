use void_pointer_core::power::{remaining_delay_ms, PowerConfig, PowerManager, PowerRequest, PowerState};
use void_pointer_core::route::{HidRoute, HidRouter, UsbState};

#[test]
fn remaining_not_expired() {
    assert_eq!(remaining_delay_ms(100, 30), 70);
}

#[test]
fn remaining_exactly_expired() {
    assert_eq!(remaining_delay_ms(100, 100), 1);
}

#[test]
fn remaining_over_expired() {
    assert_eq!(remaining_delay_ms(100, 200), 1);
}

#[test]
fn remaining_zero_timeout() {
    assert_eq!(remaining_delay_ms(0, 0), 1);
}

#[test]
fn pm_new_state_is_active() {
    let pm = PowerManager::new();
    assert_eq!(pm.state(), PowerState::Active);
    assert_eq!(pm.config(), PowerConfig::default());
}

#[test]
fn pm_apply_request_accepted() {
    let mut pm = PowerManager::new();
    pm.apply_request_result(PowerState::Suspend, true);
    assert_eq!(pm.state(), PowerState::Suspend);
}

#[test]
fn pm_apply_request_rejected() {
    let mut pm = PowerManager::new();
    pm.apply_request_result(PowerState::Sleep, false);
    assert_eq!(pm.state(), PowerState::Active);
}

#[test]
fn pm_poll_usb_configured_keeps_active() {
    let mut pm = PowerManager::new();
    let mut router = HidRouter::new();
    router.set_usb_state(UsbState::Configured);
    let result = pm.poll(100, 0, false, &router);
    assert!(result.is_none());
    assert_eq!(pm.state(), PowerState::Active);
}

#[test]
fn pm_poll_sleep_after_disconnect() {
    let mut pm = PowerManager::new();
    let router = HidRouter::new();
    let result = pm.poll(120000, 0, false, &router);
    assert_eq!(result, Some(PowerRequest { target: PowerState::Sleep }));
}

#[test]
fn pm_poll_config_dirty_blocks_sleep() {
    let mut pm = PowerManager::new();
    let router = HidRouter::new();
    let result = pm.poll(120000, 0, true, &router);
    assert!(result.is_none());
    assert_eq!(pm.state(), PowerState::Active);
}

#[test]
fn pm_poll_noop_when_already_active() {
    let mut pm = PowerManager::new();
    let router = HidRouter::new();
    let result = pm.poll(100, 50, false, &router);
    assert!(result.is_none());
}

fn ble_ready_router() -> HidRouter {
    let mut router = HidRouter::new();
    router.set_ble_connected(true);
    router.set_ble_input_ready(true);
    router
}

#[test]
fn pm_poll_suspend_after_timeout() {
    let mut pm = PowerManager::new();
    let router = ble_ready_router();

    let result = pm.poll(10000, 0, false, &router);
    assert_eq!(result, Some(PowerRequest { target: PowerState::Suspend }));
    pm.apply_request_result(PowerState::Suspend, true);

    let result2 = pm.poll(11000, 0, false, &router);
    assert_eq!(result2, None);
}

#[test]
fn pm_next_recheck_delay() {
    let pm = PowerManager::new();
    let router = ble_ready_router();
    let delay = pm.next_recheck_delay_ms(100, 0, false, &router);
    assert!(delay.is_some());
    assert!(delay.unwrap() <= 5000);
}

#[test]
fn pm_next_recheck_exact_delay() {
    let pm = PowerManager::new();
    let router = ble_ready_router();
    assert_eq!(pm.next_recheck_delay_ms(100, 0, false, &router), Some(4900));
    assert_eq!(pm.next_recheck_delay_ms(100, 0, false, &HidRouter::new()), Some(59900));
    let mut attached = HidRouter::new();
    attached.set_usb_state(UsbState::Attached);
    assert_eq!(pm.next_recheck_delay_ms(100, 0, false, &attached), None);
}

#[test]
fn pm_next_recheck_usb_configured_returns_none() {
    let pm = PowerManager::new();
    let mut router = HidRouter::new();
    router.set_usb_state(UsbState::Configured);
    assert!(pm.next_recheck_delay_ms(100, 0, false, &router).is_none());
}

#[test]
fn pm_next_recheck_already_suspend_returns_none() {
    let mut pm = PowerManager::new();
    pm.apply_request_result(PowerState::Suspend, true);
    let router = ble_ready_router();
    assert!(pm.next_recheck_delay_ms(100, 0, false, &router).is_none());
}

#[test]
fn pm_next_recheck_already_sleep_returns_none() {
    let mut pm = PowerManager::new();
    pm.apply_request_result(PowerState::Sleep, true);
    let router = HidRouter::new();
    assert!(pm.next_recheck_delay_ms(100, 0, false, &router).is_none());
}

#[test]
fn pm_next_recheck_sleep_path_returns_delay() {
    let pm = PowerManager::new();
    let router = HidRouter::new();
    let delay = pm.next_recheck_delay_ms(100, 0, false, &router);
    assert!(delay.is_some());
    assert!(delay.unwrap() <= 60000);
}

#[test]
fn pm_next_recheck_config_dirty_blocks_sleep() {
    let pm = PowerManager::new();
    let router = HidRouter::new();
    assert!(pm.next_recheck_delay_ms(100, 0, true, &router).is_none());
}

#[test]
fn pm_poll_ble_connected_stays_active_when_not_idle_enough() {
    let mut pm = PowerManager::new();
    let router = ble_ready_router();
    let result = pm.poll(100, 50, false, &router);
    assert!(result.is_none());
    assert_eq!(pm.state(), PowerState::Active);
}

#[test]
fn pm_request_state_same_state_returns_none() {
    let mut pm = PowerManager::new();
    let result = pm.poll(100, 50, false, &HidRouter::new());
    assert!(result.is_none());
    assert_eq!(pm.state(), PowerState::Active);
}

#[test]
fn pm_request_state_returns_request_for_suspend() {
    let mut pm = PowerManager::new();
    let router = ble_ready_router();
    let result = pm.poll(10000, 0, false, &router);
    assert_eq!(result, Some(PowerRequest { target: PowerState::Suspend }));
}

#[test]
fn pm_request_state_returns_request_for_sleep() {
    let mut pm = PowerManager::new();
    let result = pm.poll(120000, 0, false, &HidRouter::new());
    assert_eq!(result, Some(PowerRequest { target: PowerState::Sleep }));
}

#[test]
fn pm_apply_request_active_sets_state() {
    let mut pm = PowerManager::new();
    pm.apply_request_result(PowerState::Active, true);
    assert_eq!(pm.state(), PowerState::Active);
}

#[test]
fn pm_request_state_transition_from_suspend_to_active() {
    let mut pm = PowerManager::new();
    pm.apply_request_result(PowerState::Suspend, true);
    assert_eq!(pm.state(), PowerState::Suspend);

    let router = ble_ready_router();
    let result = pm.poll(100, 50, false, &router);

    assert!(result.is_none());
    assert_eq!(pm.state(), PowerState::Active);
}

#[test]
fn pm_idle_time_wraps_around_clock() {
    let mut pm = PowerManager::new();
    let router = HidRouter::new();
    let result = pm.poll(59_000, u32::MAX - 1_000, false, &router);
    assert_eq!(result, Some(PowerRequest { target: PowerState::Sleep }));
    let mut attached = HidRouter::new();
    attached.set_usb_state(UsbState::Suspended);
    assert_eq!(pm.poll(120000, 0, false, &attached), None);
}

#[test]
fn hid_route_as_ffi() {
    assert_eq!(HidRoute::NoRoute.as_ffi(), 0);
    assert_eq!(HidRoute::Ble.as_ffi(), 1);
    assert_eq!(HidRoute::Dongle2G4.as_ffi(), 2);
    assert_eq!(HidRoute::Usb.as_ffi(), 3);
}

#[test]
fn hid_route_from_ffi() {
    assert_eq!(HidRoute::from(0), HidRoute::NoRoute);
    assert_eq!(HidRoute::from(1), HidRoute::Ble);
    assert_eq!(HidRoute::from(2), HidRoute::Dongle2G4);
    assert_eq!(HidRoute::from(3), HidRoute::Usb);
    assert_eq!(HidRoute::from(99), HidRoute::NoRoute);
}

#[test]
fn hid_route_code_roundtrip() {
    for r in [HidRoute::NoRoute, HidRoute::Ble, HidRoute::Dongle2G4, HidRoute::Usb] {
        assert_eq!(HidRoute::from(r.as_ffi()), r);
    }
}

#[test]
fn usb_state_from_ffi() {
    assert_eq!(UsbState::from(0), UsbState::Detached);
    assert_eq!(UsbState::from(1), UsbState::Attached);
    assert_eq!(UsbState::from(2), UsbState::Configured);
    assert_eq!(UsbState::from(3), UsbState::Suspended);
    assert_eq!(UsbState::from(4), UsbState::Error);
    assert_eq!(UsbState::from(99), UsbState::Detached);
}

#[test]
fn router_default_state() {
    let r = HidRouter::new();
    assert!(!r.is_ble_connected());
    assert!(!r.is_ble_input_ready());
    assert_eq!(r.usb_state(), UsbState::Detached);
    assert!(!r.is_usb_configured());
    assert_eq!(r.preferred_mouse_route(), HidRoute::NoRoute);
}

#[test]
fn usb_configured_preferred_over_ble() {
    let mut r = HidRouter::new();
    r.set_ble_connected(true);
    r.set_ble_input_ready(true);
    r.set_usb_state(UsbState::Configured);
    assert_eq!(r.preferred_mouse_route(), HidRoute::Usb);
    assert_eq!(r.preferred_custom_route(), HidRoute::Usb);
    assert!(r.is_usb_configured());
}

#[test]
fn ble_ready_when_no_usb() {
    let mut r = HidRouter::new();
    r.set_ble_connected(true);
    r.set_ble_input_ready(true);
    assert_eq!(r.preferred_mouse_route(), HidRoute::Ble);
    assert!(r.has_mouse_route());
    assert!(r.has_wireless_connection());
}

#[test]
fn ble_connected_not_ready() {
    let mut r = HidRouter::new();
    r.set_ble_connected(true);
    assert_eq!(r.preferred_mouse_route(), HidRoute::NoRoute);
    assert!(!r.has_mouse_route());
}

#[test]
fn ble_disconnect_resets_input_ready() {
    let mut r = HidRouter::new();
    r.set_ble_connected(true);
    r.set_ble_input_ready(true);
    assert!(r.is_ble_input_ready());
    r.set_ble_connected(false);
    assert!(!r.is_ble_connected());
    assert!(!r.is_ble_input_ready());
    r.set_ble_connected(true);
    assert!(!r.is_ble_input_ready());
}

#[test]
fn set_ble_input_ready_ignored_when_disconnected() {
    let mut r = HidRouter::new();
    r.set_ble_input_ready(true);
    assert!(!r.is_ble_input_ready());
}

#[test]
fn dongle_connected() {
    let mut r = HidRouter::new();
    assert!(!r.is_ble_connected());
    r.set_dongle_connected(true);
    assert_eq!(r.preferred_mouse_route(), HidRoute::NoRoute);
}

#[test]
fn has_custom_route_when_usb() {
    let mut r = HidRouter::new();
    assert!(!r.has_custom_route());
    r.set_usb_state(UsbState::Configured);
    assert!(r.has_custom_route());
}

#[test]
fn has_wireless_connection_when_ble_ready() {
    let mut r = HidRouter::new();
    assert!(!r.has_wireless_connection());
    r.set_ble_connected(true);
    r.set_ble_input_ready(true);
    assert!(r.has_wireless_connection());
}

#[test]
fn default_equals_new() {
    assert_eq!(HidRouter::default().usb_state(), HidRouter::new().usb_state());
}
