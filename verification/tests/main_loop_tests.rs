use void_pointer_core::hid::types::HidSendStatus;
use void_pointer_core::input::config::InputConfig;
use void_pointer_core::input::types::{InputManager, InputStatus};
use void_pointer_core::power::PowerState;
use void_pointer_core::route::{HidRoute, UsbState};
use void_pointer_core::runtime::commands::{RuntimeCommand, RuntimeCommandResult};
use void_pointer_core::runtime::events::RuntimeEvent;
use void_pointer_core::runtime::main_loop::{
    AttitudeAction, LedCue, RuntimeCore, IMU_FIFO_MAX_SAMPLES, IMU_POLL_ACTIVE_MS,
};

fn make_core() -> RuntimeCore {
    RuntimeCore::new(1000, InputManager::new(), InputStatus::default())
}

#[test]
fn new_core_is_idle() {
    let core = make_core();
    assert_eq!(core.last_activity_ms, 1000);
    assert!(!core.dirty.any());
    assert!(!core.pending.any());
    assert_eq!(core.imu_poll_deadline_ms, Some(1000));
    assert_eq!(core.motion_report_deadline_ms, Some(1000));
    assert!(core.power_recheck_deadline_ms.is_none());
    assert_eq!(core.power.state(), PowerState::Active);
}

#[test]
fn mark_activity_sets_last_activity() {
    let mut rt = make_core();
    rt.mark_activity(2000);
    assert_eq!(rt.last_activity_ms, 2000);
    assert!(rt.dirty.power);
    assert!(rt.pending.power_recheck);
    assert!(rt.power_recheck_deadline_ms.is_none());
}

#[test]
fn imu_poll_enabled_when_active() {
    let rt = make_core();
    assert!(rt.imu_poll_enabled());
}

#[test]
fn schedule_imu_poll_disabled_clears_deadline() {
    let mut rt = make_core();
    rt.power.apply_request_result(PowerState::Suspend, true);
    assert!(!rt.schedule_imu_poll_deadline(2000));
    assert!(rt.imu_poll_deadline_ms.is_none());
}

#[test]
fn schedule_imu_poll_enabled_sets_deadline() {
    let mut rt = make_core();
    assert!(rt.schedule_imu_poll_deadline(2000));
    assert_eq!(rt.imu_poll_deadline_ms, Some(2000 + IMU_POLL_ACTIVE_MS));
}

#[test]
fn every_event_counts_as_activity() {
    let mut rt = make_core();
    rt.power_recheck_deadline_ms = Some(9999);
    let fx = rt.apply_event(RuntimeEvent::HidSendDone { route: 1, status: 0, timestamp: 4321 });
    assert_eq!(rt.last_activity_ms, 4321);
    assert!(rt.power_recheck_deadline_ms.is_none());
    assert!(rt.pending.power_recheck);
    assert!(rt.pending.hid_retry);
    assert!(fx.led.is_none());
}

#[test]
fn ble_connect_plays_connected_and_waits_for_input() {
    let mut rt = make_core();
    let fx = rt.apply_event(RuntimeEvent::BleConnected { timestamp: 1100 });
    assert_eq!(fx.led, Some(LedCue::Connected));
    assert!(rt.router.is_ble_connected());
    assert!(!rt.router.is_ble_input_ready());
    let fx = rt.apply_event(RuntimeEvent::BleInputReady { timestamp: 1200 });
    assert!(fx.led.is_none());
    assert!(rt.router.is_ble_input_ready());
    assert!(rt.dirty.report);
    assert_eq!(rt.router.preferred_mouse_route(), HidRoute::Ble);
    let fx = rt.apply_event(RuntimeEvent::BleDisconnected { reason: 19, timestamp: 1300 });
    assert_eq!(fx.led, Some(LedCue::Disconnected));
    assert!(!rt.router.is_ble_connected());
}

#[test]
fn usb_state_changes_pick_led_cue() {
    let mut rt = make_core();
    let fx = rt.apply_event(RuntimeEvent::UsbStateChanged { state: 2, timestamp: 1 });
    assert_eq!(fx.led, Some(LedCue::Connected));
    assert_eq!(rt.router.usb_state(), UsbState::Configured);
    let fx = rt.apply_event(RuntimeEvent::UsbStateChanged { state: 3, timestamp: 2 });
    assert!(fx.led.is_none());
    let fx = rt.apply_event(RuntimeEvent::UsbStateChanged { state: 0, timestamp: 3 });
    assert_eq!(fx.led, Some(LedCue::Disconnected));
}

#[test]
fn mode_switch_picks_mode_cue() {
    let mut rt = make_core();
    assert_eq!(rt.apply_event(RuntimeEvent::ModeSwitchExti { level: 1, timestamp: 5 }).led, Some(LedCue::Mode2g4));
    assert_eq!(rt.apply_event(RuntimeEvent::ModeSwitchExti { level: 0, timestamp: 6 }).led, Some(LedCue::ModeBle));
    assert!(rt.dirty.input);
}

#[test]
fn button_edge_starts_debounce_timer_for_known_buttons() {
    let mut rt = make_core();
    assert!(rt.apply_event(RuntimeEvent::ButtonExti { button_id: 2, level: 0, timestamp: 5 }).start_debounce_timer);
    assert!(!rt.apply_event(RuntimeEvent::ButtonExti { button_id: 9, level: 0, timestamp: 6 }).start_debounce_timer);
    let fx = rt.apply_event(RuntimeEvent::DebounceTick { timestamp: 7 });
    assert!(fx.debounce_tick);
}

#[test]
fn debounce_ticks_change_input_after_stable_level() {
    let mut rt = make_core();
    rt.input.set_profile(&InputConfig::default().profiles[0]);
    rt.apply_event(RuntimeEvent::ButtonExti { button_id: 4, level: 1, timestamp: 5 });
    let mut levels = [false; 6];
    levels[4] = true;
    let mut still = true;
    let mut ticks = 0;
    while still && ticks < 20 {
        still = rt.debounce_tick(levels);
        ticks += 1;
    }
    assert!(!still);
    assert!(rt.dirty.input);
    assert!(rt.dirty.report);
    let input = rt.step_input();
    assert!(!rt.dirty.input);
    assert_eq!(rt.last_input_status, input);
}

#[test]
fn imu_events_update_sample_and_attitude() {
    let mut rt = make_core();
    let fx = rt.apply_event(RuntimeEvent::ImuSample { raw_x: 1, raw_y: 2, raw_z: 3, timestamp: 50 });
    assert!(rt.latest_imu_sample.valid);
    assert_eq!(rt.latest_imu_sample.timestamp_ms, 50);
    assert!(matches!(fx.attitude, AttitudeAction::Update(r) if r.x == 1 && r.y == 2 && r.z == 3));
    rt.pending.imu_fifo_read = true;
    let fx = rt.apply_event(RuntimeEvent::ImuFifoDone { status: 5, dropped_count: 0, timestamp: 60 });
    assert!(!rt.pending.imu_fifo_read);
    assert!(!rt.latest_imu_sample.valid);
    assert_eq!(fx.attitude, AttitudeAction::Clear);
    assert_eq!(fx.poll_after_ms, Some(IMU_POLL_ACTIVE_MS));
    assert_eq!(rt.imu_poll_deadline_ms, Some(60 + IMU_POLL_ACTIVE_MS));
    let fx = rt.apply_event(RuntimeEvent::ImuInt { timestamp: 70 });
    assert!(fx.rearm_imu_interrupts);
    assert_eq!(rt.imu_poll_deadline_ms, Some(70));
}

#[test]
fn imu_read_starts_once_when_due() {
    let mut rt = make_core();
    let step = rt.maybe_start_imu_poll(1000);
    assert_eq!(step.command, Some(RuntimeCommand::ReadImuFifo { max_samples: IMU_FIFO_MAX_SAMPLES }));
    assert!(rt.pending.imu_fifo_read);
    assert_eq!(rt.imu_poll_deadline_ms, Some(1030));
    assert!(rt.maybe_start_imu_poll(1001).command.is_none());
    rt.pending.imu_fifo_read = false;
    let step = rt.maybe_start_imu_poll(1010);
    assert!(step.command.is_none());
    assert_eq!(step.poll_after_ms, Some(20));
}

#[test]
fn refused_report_is_retried() {
    let mut rt = make_core();
    assert_eq!(rt.handle_hid_send_status(HidSendStatus::RetryLater), Some(8));
    assert!(rt.pending.hid_retry);
    assert_eq!(rt.handle_hid_send_status(HidSendStatus::Sent), None);
    assert!(!rt.pending.hid_retry);
    rt.pending.hid_retry = true;
    assert_eq!(rt.handle_hid_send_status(HidSendStatus::NotConnected), None);
    assert!(!rt.pending.hid_retry);
}

#[test]
fn power_result_becomes_state() {
    let mut rt = make_core();
    rt.power_recheck_deadline_ms = Some(5);
    rt.pending.power_recheck = true;
    let follow = rt.apply_command_result(
        RuntimeCommandResult::PowerStateRequestDone { target: PowerState::Suspend, accepted: true },
        2000,
    );
    assert_eq!(rt.power.state(), PowerState::Suspend);
    assert!(rt.power_recheck_deadline_ms.is_none());
    assert!(!rt.pending.power_recheck);
    assert!(follow.power_poll_after_ms.is_none());
    rt.apply_command_result(
        RuntimeCommandResult::PowerStateRequestDone { target: PowerState::Sleep, accepted: false },
        2001,
    );
    assert_eq!(rt.power.state(), PowerState::Active);
}

#[test]
fn failed_imu_request_is_rescheduled() {
    let mut rt = make_core();
    rt.pending.imu_fifo_read = true;
    let follow = rt.apply_command_result(RuntimeCommandResult::ImuFifoReadRequested { status: 7 }, 3000);
    assert!(!rt.pending.imu_fifo_read);
    assert_eq!(follow.imu_poll_after_ms, Some(IMU_POLL_ACTIVE_MS));
    assert_eq!(rt.imu_poll_deadline_ms, Some(3030));
    let follow = rt.apply_command_result(RuntimeCommandResult::ImuFifoReadRequested { status: 0 }, 3001);
    assert!(follow.imu_poll_after_ms.is_none());
}

#[test]
fn blocked_device_stays_active() {
    let mut rt = make_core();
    rt.pending.vendor_rx = true;
    let step = rt.poll_power(1000 + 120_000, false, false);
    assert!(step.command.is_none());
    assert_eq!(rt.power.state(), PowerState::Active);
    assert!(!rt.pending.power_recheck);
    assert_eq!(step.poll_after_ms, Some(1));
    assert!(rt.power_has_blockers(false));
}

#[test]
fn idle_detached_device_requests_sleep() {
    let mut rt = make_core();
    let step = rt.poll_power(1000 + 60_000, false, false);
    assert_eq!(step.command, Some(RuntimeCommand::RequestPowerState { target: PowerState::Sleep }));
    assert!(step.stop_led);
    assert!(step.restore_from.is_none());
    let step = rt.poll_power(1000 + 60_000, false, true);
    assert!(step.command.is_none());
}

#[test]
fn power_check_waits_for_its_deadline() {
    let mut rt = make_core();
    let step = rt.poll_power(1000 + 10_000, false, false);
    assert!(step.command.is_none());
    assert_eq!(step.poll_after_ms, Some(50_000));
    assert_eq!(rt.power_recheck_deadline_ms, Some(61_000));
    let step = rt.poll_power(1000 + 20_000, false, false);
    assert_eq!(step.poll_after_ms, Some(40_000));
    assert!(step.command.is_none());
}

#[test]
fn wake_from_suspend_restores_sensors() {
    let mut rt = make_core();
    rt.power.apply_request_result(PowerState::Suspend, true);
    rt.pending.events = true;
    let step = rt.poll_power(5000, false, false);
    assert_eq!(step.restore_from, Some(PowerState::Suspend));
    assert_eq!(rt.power.state(), PowerState::Active);
    rt.restore_active_runtime_state(5000);
    assert_eq!(rt.imu_poll_deadline_ms, Some(5000));
    assert_eq!(rt.motion_report_deadline_ms, Some(5000));
}

#[test]
fn motion_reports_follow_their_period() {
    let mut rt = make_core();
    assert_eq!(rt.step_motion(1000, false), (false, None));
    assert_eq!(rt.step_motion(1000, true), (true, Some(10)));
    assert_eq!(rt.step_motion(1004, true), (false, Some(6)));
    assert_eq!(rt.step_motion(1010, true), (true, Some(10)));
}

#[test]
fn report_without_route_is_held_back() {
    let mut rt = make_core();
    rt.pending.hid_retry = true;
    rt.dirty.report = true;
    assert!(rt.mouse_route(2000, true).is_none());
    assert!(!rt.pending.hid_retry);
    assert!(!rt.dirty.report);
    assert_eq!(rt.motion_report_deadline_ms, Some(2000));
    rt.apply_event(RuntimeEvent::UsbStateChanged { state: 2, timestamp: 2100 });
    assert_eq!(rt.mouse_route(2200, true), Some(HidRoute::Usb));
    assert!(rt.mouse_route(2300, false).is_none());
}

#[test]
fn wheel_or_button_change_is_activity() {
    let mut rt = make_core();
    rt.step_wheel_button(0, false, 3000);
    assert_eq!(rt.last_activity_ms, 1000);
    rt.step_wheel_button(-1, false, 3000);
    assert_eq!(rt.last_activity_ms, 3000);
    assert!(rt.dirty.report);
}

#[test]
fn pending_fifo_read_is_asked_again_before_config_is_settled() {
    let mut core = make_core();
    core.pending.imu_fifo_read = true;
    core.pending.config_save = true;
    core.dirty.config = true;
    assert_eq!(
        core.imu_read_or_settle_config(),
        Some(RuntimeCommand::ReadImuFifo { max_samples: IMU_FIFO_MAX_SAMPLES })
    );
    assert!(core.pending.config_save);
    assert!(core.dirty.config);

    core.pending.imu_fifo_read = false;
    assert_eq!(core.imu_read_or_settle_config(), None);
    assert!(!core.pending.config_save);
    assert!(!core.dirty.config);
}
