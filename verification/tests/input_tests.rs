use void_pointer_core::ffi::{ffi_bool, to_ffi_bool};
use void_pointer_core::hid::api::HidApi;
use void_pointer_core::hid::types::{CustomReport, HidSendStatus, MouseButtons, MouseReport};
use void_pointer_core::input::config::{ButtonFunction, ButtonMapping, ButtonProfile, InputConfig};
use void_pointer_core::input::encoder::RotaryEncoder;
use void_pointer_core::input::types::{
    DebounceTickOutcome, DebouncedTwoStateInput, InputManager, InputStatus, StableTransition,
};
use void_pointer_core::motion::axis::{hw_map_x, hw_map_y, AxisDir, SourceAxis};
use void_pointer_core::report::types::ReportDelta;
use void_pointer_core::runtime::report_runtime::MouseReportRuntime;

#[test]
fn ffi_bool_true() {
    assert!(ffi_bool(1));
    assert!(ffi_bool(2));
}

#[test]
fn ffi_bool_false() {
    assert!(!ffi_bool(0));
}

#[test]
fn to_ffi_bool_works() {
    assert_eq!(to_ffi_bool(true), 1);
    assert_eq!(to_ffi_bool(false), 0);
}

#[test]
fn custom_report_default_all_zero() {
    let r = CustomReport::default();
    assert_eq!(r.len, 0);
    assert!(r.data.iter().all(|&b| b == 0));
}

#[test]
fn mouse_buttons_pack_none() {
    let b = MouseButtons { left: false, right: false, middle: false };
    assert_eq!(b.pack(), 0);
}

#[test]
fn mouse_buttons_pack_left() {
    let b = MouseButtons { left: true, right: false, middle: false };
    assert_eq!(b.pack(), 1 << 0);
}

#[test]
fn mouse_buttons_pack_right() {
    let b = MouseButtons { left: false, right: true, middle: false };
    assert_eq!(b.pack(), 1 << 1);
}

#[test]
fn mouse_buttons_pack_middle() {
    let b = MouseButtons { left: false, right: false, middle: true };
    assert_eq!(b.pack(), 1 << 2);
}

#[test]
fn mouse_buttons_pack_all() {
    let b = MouseButtons { left: true, right: true, middle: true };
    assert_eq!(b.pack(), (1 << 0) | (1 << 1) | (1 << 2));
}

#[test]
fn hid_status_codes_map() {
    assert_eq!(HidApi::map_status(0), HidSendStatus::Sent);
    assert_eq!(HidApi::map_status(1), HidSendStatus::RetryLater);
    assert_eq!(HidApi::map_status(2), HidSendStatus::NotConnected);
    assert_eq!(HidApi::map_status(3), HidSendStatus::Fatal);
    assert_eq!(HidApi::map_status(200), HidSendStatus::Fatal);
}

#[test]
fn new_is_default() {
    let e = RotaryEncoder::new();
    assert_eq!(e.accum(), 0);
}

#[test]
fn sync_resets_accum() {
    let mut e = RotaryEncoder::new();
    e.update(true, false);
    e.sync(false, false);
    assert_eq!(e.accum(), 0);
}

#[test]
fn full_step_forward() {
    let mut e = RotaryEncoder::new();
    assert_eq!(e.update(false, false), 0);
    assert_eq!(e.update(true, false), 0);
    assert_eq!(e.update(true, true), 0);
    assert_eq!(e.update(false, true), 0);
    assert_eq!(e.update(false, false), 1);
}

#[test]
fn full_step_backward() {
    let mut e = RotaryEncoder::new();
    assert_eq!(e.update(false, false), 0);
    assert_eq!(e.update(false, true), 0);
    assert_eq!(e.update(true, true), 0);
    assert_eq!(e.update(true, false), 0);
    assert_eq!(e.update(false, false), -1);
}

#[test]
fn partial_then_reverse() {
    let mut e = RotaryEncoder::new();
    e.update(false, true);
    e.update(true, true);
    e.update(true, false);
    e.update(true, true);
    let result = e.update(false, true);
    assert_eq!(result, 0);
}

#[test]
fn sync_clears_partial() {
    let mut e = RotaryEncoder::new();
    e.update(false, true);
    e.update(true, true);
    e.sync(false, false);
    assert_eq!(e.update(false, true), 0);
}

#[test]
fn two_full_steps_forward() {
    let mut e = RotaryEncoder::new();
    for _ in 0..2 {
        assert_eq!(e.update(true, false), 0);
        assert_eq!(e.update(true, true), 0);
        assert_eq!(e.update(false, true), 0);
        assert_eq!(e.update(false, false), 1);
    }
}

#[test]
fn bounce_on_one_phase() {
    let mut e = RotaryEncoder::new();
    e.update(true, false);
    e.update(true, true);
    e.update(true, false);
    e.update(true, true);
    e.update(true, false);
    let r = e.update(true, true);
    assert_eq!(r, 0);
}

fn pressed(idx: &[usize]) -> [bool; 6] {
    let mut levels = [false; 6];
    for &i in idx {
        levels[i] = true;
    }
    levels
}

fn single(f: ButtonFunction) -> ButtonMapping {
    ButtonMapping::new([
        f,
        ButtonFunction::Unassigned,
        ButtonFunction::Unassigned,
        ButtonFunction::Unassigned,
    ])
}

#[test]
fn default_profile_maps_primary_to_left() {
    let mut m = InputManager::new();
    m.set_profile(&ButtonProfile::default());

    m.sync_snapshot(pressed(&[4]));

    let status = m.get_current_input();
    assert!(status.left);
    assert!(!status.right);
    assert!(!status.middle);
    assert!(!status.action);
    assert!(!status.laser);
    assert_eq!(status.wheel_delta, 0);
}

#[test]
fn scroll_up_down_produces_wheel() {
    let mut m = InputManager::new();
    let mut profile = ButtonProfile::default();
    profile.up = single(ButtonFunction::ScrollUp);
    profile.down = single(ButtonFunction::ScrollDown);
    m.set_profile(&profile);

    m.sync_snapshot(pressed(&[2, 3]));

    let status = m.get_current_input();
    assert_eq!(status.wheel_delta, 0);
}

#[test]
fn multi_mapping_triggers_all() {
    let mut m = InputManager::new();
    let mut profile = ButtonProfile::default();
    profile.context = ButtonMapping::new([
        ButtonFunction::Middle,
        ButtonFunction::Action,
        ButtonFunction::Unassigned,
        ButtonFunction::Unassigned,
    ]);
    m.set_profile(&profile);

    m.sync_snapshot(pressed(&[0]));

    let status = m.get_current_input();
    assert!(status.middle);
    assert!(status.action);
}

#[test]
fn no_mapping_produces_empty_status() {
    let mut m = InputManager::new();
    let status = m.get_current_input();
    assert!(!status.left);
    assert!(!status.right);
    assert!(!status.middle);
    assert!(!status.action);
    assert!(!status.laser);
    assert_eq!(status.wheel_delta, 0);
}

#[test]
fn scroll_up_alone_moves_wheel() {
    let mut m = InputManager::new();
    let mut profile = ButtonProfile::default();
    profile.up = ButtonMapping::new([
        ButtonFunction::ScrollUp,
        ButtonFunction::ScrollUp,
        ButtonFunction::Laser,
        ButtonFunction::Unassigned,
    ]);
    m.set_profile(&profile);
    m.sync_snapshot(pressed(&[2]));
    let status = m.get_current_input();
    assert_eq!(status.wheel_delta, 2);
    assert!(status.laser);
    assert_eq!(
        InputStatus { wheel_delta: 0, laser: false, ..status },
        InputStatus::default()
    );
}

#[test]
fn debounce_accepts_after_five_stable_ticks() {
    let mut m = InputManager::new();
    m.set_profile(&ButtonProfile::default());
    m.sync_snapshot([false; 6]);
    assert!(m.on_button_exti(4, true));
    assert!(!m.on_button_exti(6, true));
    assert!(m.is_debouncing());
    for _ in 0..4 {
        assert!(!m.on_debounce_tick(pressed(&[4])));
        assert!(m.is_debouncing());
    }
    assert!(m.on_debounce_tick(pressed(&[4])));
    assert!(!m.is_debouncing());
    assert!(m.get_current_input().left);
}

#[test]
fn debounce_bounce_restarts_count() {
    let mut d = DebouncedTwoStateInput::new(3);
    d.begin_debounce(true);
    for _ in 0..3 {
        assert_eq!(d.sample(true), DebounceTickOutcome::StillDebouncing);
    }
    assert_eq!(d.sample(false), DebounceTickOutcome::StillDebouncing);
    for _ in 0..4 {
        assert_eq!(d.sample(false), DebounceTickOutcome::StillDebouncing);
    }
    assert_eq!(
        d.sample(false),
        DebounceTickOutcome::Stabilized(StableTransition { input_id: 3, active: false, changed: false })
    );
    assert_eq!(d.sample(false), DebounceTickOutcome::Idle);
    assert!(!d.stable_active());
}

#[test]
fn default_input_config_has_three_default_profiles() {
    let c = InputConfig::default();
    for p in c.profiles.iter() {
        assert_eq!(*p, ButtonProfile::default());
    }
    assert_eq!(ButtonProfile::default().primary.fns[0], ButtonFunction::Left);
}

#[test]
fn hw_map_x_is_yaw_inverted() {
    assert_eq!(hw_map_x().source, SourceAxis::Yaw);
    assert_eq!(hw_map_x().dir, AxisDir::Inverted);
}

#[test]
fn hw_map_y_is_pitch_normal() {
    assert_eq!(hw_map_y().source, SourceAxis::Pitch);
    assert_eq!(hw_map_y().dir, AxisDir::Normal);
}

#[test]
fn mouse_runtime_wheel_and_buttons() {
    let mut r = MouseReportRuntime::new();
    r.ingest_wheel_delta(3);
    r.ingest_wheel_delta(-1);
    let buttons = MouseButtons { left: true, right: false, middle: false };
    assert!(r.buttons_changed(buttons.pack()));
    let report = r.build_report(buttons, Some(ReportDelta { dx: 4, dy: -2 }));
    assert_eq!(report, MouseReport { buttons, dx: 4, dy: -2, wheel: 2 });
    r.commit_send(&report);
    assert_eq!(r.pending_wheel(), 0);
    assert!(!r.buttons_changed(1));
    r.reset_route_sync();
    assert!(r.buttons_changed(1));
}

#[test]
fn mouse_runtime_wheel_saturates() {
    let mut r = MouseReportRuntime::new();
    for _ in 0..3 {
        r.ingest_wheel_delta(-100);
    }
    assert_eq!(r.pending_wheel(), -128);
    let report = r.build_report(MouseButtons::default(), None);
    assert_eq!(report.wheel, -127);
    assert_eq!((report.dx, report.dy), (0, 0));
    r.commit_send(&report);
    assert_eq!(r.pending_wheel(), -1);
    r.reset_all();
    assert_eq!(r.pending_wheel(), 0);
}
