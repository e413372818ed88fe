use void_pointer_core::hid::types::{HidSendStatus, MouseButtons};
use void_pointer_core::motion::trigger::{MotionTrigger, SampleStep, TriggerButtons};
use void_pointer_core::report::pending::PendingMotion;
use void_pointer_core::report::types::ReportDelta;
use void_pointer_core::runtime::report_runtime::MouseReportRuntime;

fn press(action: bool, middle: bool) -> TriggerButtons {
    TriggerButtons { action, middle }
}

#[test]
fn trigger_starts_idle() {
    let s = MotionTrigger::new();
    assert!(!s.is_active());
    assert!(s.last_sample_ts.is_none());
}

#[test]
fn trigger_activates_on_action() {
    let mut s = MotionTrigger::new();
    assert_eq!(s.update_trigger(press(true, false), false), (true, true));
    assert!(s.is_active());
}

#[test]
fn trigger_activates_on_middle() {
    let mut s = MotionTrigger::new();
    assert!(s.update_trigger(press(false, true), true).0);
    assert!(s.is_active());
}

#[test]
fn trigger_activates_on_both() {
    let mut s = MotionTrigger::new();
    assert!(s.update_trigger(press(true, true), true).0);
    assert!(s.is_active());
}

#[test]
fn middle_does_not_trigger_when_disabled() {
    let mut s = MotionTrigger::new();
    assert!(!s.update_trigger(press(false, true), false).0);
    assert!(!s.is_active());
}

#[test]
fn action_still_triggers_when_middle_disabled() {
    let mut s = MotionTrigger::new();
    assert!(s.update_trigger(press(true, false), false).0);
    assert!(s.is_active());
}

#[test]
fn trigger_deactivates_on_release() {
    let mut s = MotionTrigger::new();
    s.update_trigger(press(true, false), false);
    assert_eq!(s.update_trigger(press(false, false), false), (false, true));
    assert!(!s.is_active());
}

#[test]
fn held_trigger_keeps_output() {
    let mut s = MotionTrigger::new();
    s.update_trigger(press(true, false), false);
    assert_eq!(s.update_trigger(press(true, false), false), (true, false));
}

#[test]
fn should_not_process_when_idle() {
    let s = MotionTrigger::new();
    assert!(!s.should_process_sample(100, true));
}

#[test]
fn should_process_when_active_with_new_sample() {
    let mut s = MotionTrigger::new();
    s.update_trigger(press(true, false), false);
    assert!(s.should_process_sample(100, true));
}

#[test]
fn should_not_process_duplicate_ts() {
    let mut s = MotionTrigger::new();
    s.update_trigger(press(true, false), false);
    s.begin_sample(100, true);
    assert!(!s.should_process_sample(100, true));
    assert!(s.should_process_sample(101, true));
}

#[test]
fn should_not_process_invalid_sample() {
    let mut s = MotionTrigger::new();
    s.update_trigger(press(true, false), false);
    assert!(!s.should_process_sample(100, false));
}

#[test]
fn first_sample_calibrates_then_later_ones_update() {
    let mut s = MotionTrigger::new();
    s.update_trigger(press(true, false), false);
    assert_eq!(s.begin_sample(100, true), SampleStep::Calibrate);
    assert_eq!(s.begin_sample(200, true), SampleStep::Update);
    assert_eq!(s.begin_sample(300, false), SampleStep::RestOutput);
    assert!(s.is_active());
}

#[test]
fn release_during_calibrating_goes_idle() {
    let mut s = MotionTrigger::new();
    s.update_trigger(press(true, false), false);
    assert!(s.is_active());
    s.update_trigger(press(false, false), false);
    assert!(!s.is_active());
    assert!(!s.should_process_sample(100, true));
}

#[test]
fn re_trigger_after_release_calibrates_again() {
    let mut s = MotionTrigger::new();
    s.update_trigger(press(true, false), false);
    s.begin_sample(100, true);
    s.update_trigger(press(false, false), false);
    assert!(s.update_trigger(press(true, false), false).0);
    assert_eq!(s.begin_sample(200, true), SampleStep::Calibrate);
}

#[test]
fn trigger_reset_clears_state() {
    let mut s = MotionTrigger::new();
    s.update_trigger(press(true, false), false);
    s.begin_sample(100, true);
    s.reset();
    assert!(!s.is_active());
    assert!(!s.should_process_sample(200, true));
    assert!(s.last_sample_ts.is_none());
}

#[test]
fn state_new_has_no_pending() {
    let r = PendingMotion::new();
    assert!(!r.has_pending());
    assert_eq!(r.pending(), (0, 0));
    assert_eq!(r.peek_report(), None);
}

#[test]
fn commit_sent_reduces_pending() {
    let mut r = PendingMotion::new();
    r.add(2, 1);
    let report = r.peek_report().unwrap();
    assert_eq!(report.dx, 2);
    assert_eq!(report.dy, 1);
    r.commit_sent(report);
    assert!(!r.has_pending());
}

#[test]
fn clear_pending_removes_pending() {
    let mut r = PendingMotion::new();
    r.add(1, 0);
    assert!(r.has_pending());
    r.clear_pending();
    assert!(!r.has_pending());
}

#[test]
fn partial_commit_leaves_remaining() {
    let mut r = PendingMotion::new();
    r.add(3, 1);
    let report = r.peek_report().unwrap();
    assert_eq!(report.dx, 3);
    assert_eq!(report.dy, 1);
    r.commit_sent(ReportDelta { dx: 1, dy: 1 });
    assert_eq!(r.pending(), (2, 0));
}

#[test]
fn peek_report_clamps_to_i8() {
    let mut r = PendingMotion::new();
    r.add(300, -200);
    let report = r.peek_report().unwrap();
    assert_eq!(report.dx, 127);
    assert_eq!(report.dy, -128);
    r.commit_sent(report);
    assert_eq!(r.pending(), (173, -72));
}

#[test]
fn clear_one_axis_keeps_the_other() {
    let mut r = PendingMotion::new();
    r.add(5, -6);
    r.clear_x_pending();
    assert_eq!(r.pending(), (0, -6));
    r.clear_y_pending();
    assert_eq!(r.pending(), (0, 0));
}

fn mouse_runtime() -> MouseReportRuntime {
    MouseReportRuntime::new()
}

#[test]
fn report_runtime_new_has_no_pending() {
    let r = mouse_runtime();
    assert_eq!(r.pending_wheel(), 0);
    assert!(!r.send_needed(None, 0, false, false));
}

#[test]
fn wheel_triggers_send_needed() {
    let mut r = mouse_runtime();
    r.ingest_wheel_delta(1);
    assert!(r.send_needed(None, 0, false, false));
}

#[test]
fn button_change_triggers_send_needed() {
    let r = mouse_runtime();
    assert!(r.send_needed(None, 1, false, false));
}

#[test]
fn hid_retry_triggers_send_needed() {
    let r = mouse_runtime();
    assert!(r.send_needed(None, 0, true, false));
}

#[test]
fn report_dirty_triggers_send_needed() {
    let r = mouse_runtime();
    assert!(r.send_needed(None, 0, false, true));
}

#[test]
fn pending_motion_triggers_send_needed() {
    let r = mouse_runtime();
    assert!(r.send_needed(Some(ReportDelta { dx: 1, dy: 0 }), 0, false, false));
}

#[test]
fn build_report_with_wheel() {
    let mut r = mouse_runtime();
    r.ingest_wheel_delta(3);
    let report = r.build_report(MouseButtons::default(), None);
    assert_eq!(report.wheel, 3);
}

#[test]
fn apply_send_commits_wheel_and_buttons() {
    let mut r = mouse_runtime();
    r.ingest_wheel_delta(5);
    let buttons = MouseButtons { left: true, middle: false, right: false };
    let report = r.build_report(buttons, Some(ReportDelta { dx: 2, dy: -1 }));
    assert_eq!(r.apply_send_status(&report, HidSendStatus::Sent), Some(ReportDelta { dx: 2, dy: -1 }));
    assert_eq!(r.pending_wheel(), 0);
    assert!(!r.send_needed(None, buttons.pack(), false, false));
}

#[test]
fn apply_send_retry_does_not_commit() {
    let mut r = mouse_runtime();
    r.ingest_wheel_delta(5);
    let report = r.build_report(MouseButtons::default(), None);
    assert_eq!(r.apply_send_status(&report, HidSendStatus::RetryLater), None);
    assert_eq!(r.pending_wheel(), 5);
}

#[test]
fn apply_send_not_connected_does_not_commit() {
    let mut r = mouse_runtime();
    r.ingest_wheel_delta(3);
    let report = r.build_report(MouseButtons::default(), None);
    assert_eq!(r.apply_send_status(&report, HidSendStatus::NotConnected), None);
    assert_eq!(r.pending_wheel(), 3);
}

#[test]
fn reset_route_sync_clears_buttons() {
    let mut r = mouse_runtime();
    let buttons = MouseButtons { left: true, middle: false, right: false };
    let report = r.build_report(buttons, None);
    r.apply_send_status(&report, HidSendStatus::Sent);
    assert!(!r.send_needed(None, 1, false, false));
    r.reset_route_sync();
    assert!(r.send_needed(None, 1, false, false));
}

#[test]
fn send_needed_false_when_clean() {
    let r = mouse_runtime();
    assert!(!r.send_needed(None, 0, false, false));
}
