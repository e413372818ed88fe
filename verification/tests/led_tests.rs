use void_pointer_core::led::builder::{LedSequenceBuilder, Segment};
use void_pointer_core::led::patterns::{charging, connected, low_battery, mode_2g4, mode_ble};
use void_pointer_core::led::runtime::{LedCommand, LedManager, PersistentState};
use void_pointer_core::led::{LedProfile, TICK_MS, VP_LED_PWM_CYCLE};

#[test]
fn level_equal_frames() {
    let (len, buf) = LedSequenceBuilder::<20>::new().level(100, 30).finish();
    assert_eq!(len, 4);
    assert!(buf[..3].iter().all(|&v| v > 0 && v == buf[0]));
    assert_eq!(buf[3], 0);
}

#[test]
fn fade_up_increases() {
    let (len, buf) = LedSequenceBuilder::<20>::new().fade(0, 100, 20).finish();
    assert_eq!(len, 3);
    assert!(buf[0] <= buf[1]);
    assert_eq!(buf[2], 0);
}

#[test]
fn fade_down_decreases() {
    let (len, buf) = LedSequenceBuilder::<20>::new().fade(100, 0, 20).finish();
    assert_eq!(len, 3);
    assert!(buf[0] >= buf[1]);
    assert_eq!(buf[2], 0);
}

#[test]
fn multiple_segments() {
    let (len, buf) = LedSequenceBuilder::<30>::new()
        .apply(Segment::Level(50, 20))
        .apply(Segment::Fade(50, 0, 10))
        .finish();
    assert_eq!(len, 4);
    assert!(buf[0] > 0 && buf[0] == buf[1]);
    assert_eq!(buf[3], 0);
}

#[test]
fn finish_loop_no_trailing_zero() {
    let (len, buf) = LedSequenceBuilder::<10>::new().level(100, 20).finish_loop();
    assert_eq!(len, 2);
    assert_ne!(buf[1], 0);
}

#[test]
fn level_duty_is_scaled_value() {
    let (len, buf) = LedSequenceBuilder::<4>::new().level(255, 10).level(51, 10).finish_loop();
    assert_eq!(len, 2);
    assert_eq!(buf[0], VP_LED_PWM_CYCLE);
    assert_eq!(buf[1], 51 * VP_LED_PWM_CYCLE / 255);
    assert_eq!(buf[2], 0);
}

#[test]
fn fade_values_follow_quadratic_curve() {
    let (_, buf) = LedSequenceBuilder::<8>::new().fade(0, 255, 40).finish_loop();
    let expect = |v: u32| v * VP_LED_PWM_CYCLE / 255;
    assert_eq!(buf[0], expect(0));
    assert_eq!(buf[1], expect(255 / 16));
    assert_eq!(buf[2], expect(255 * 4 / 16));
    assert_eq!(buf[3], expect(255 * 9 / 16));
    let (_, down) = LedSequenceBuilder::<8>::new().fade(255, 0, 40).finish_loop();
    assert_eq!(down[0], expect(255));
    assert_eq!(down[3], expect(255 / 16));
}

fn once_profile(time_ms: usize) -> LedProfile<1024> {
    let (len, data) = LedSequenceBuilder::<1024>::new()
        .apply(Segment::Level(50, time_ms))
        .finish();
    LedProfile { data, len, is_loop: false }
}

#[test]
fn once_profile_ends_with_zero() {
    let p = once_profile(20);
    assert!(!p.is_loop);
    assert!(p.len > 1);
    assert_eq!(p.data[p.len - 1], 0);
}

#[test]
fn loop_profile_no_trailing_zero() {
    let (len, data) = LedSequenceBuilder::<1024>::new()
        .apply(Segment::Level(50, 20))
        .finish_loop();
    let p = LedProfile { data, len, is_loop: true };
    assert!(p.is_loop);
    assert!(p.len > 0);
    assert_ne!(p.data[p.len - 1], 0);
}

#[test]
fn profile_as_slice_length() {
    let p = once_profile(20);
    assert_eq!(p.as_slice().len(), p.len);
}

#[test]
fn playback_ms_computed_correctly() {
    let p = once_profile(30);
    assert_eq!(p.playback_ms(), p.len as u32 * TICK_MS as u32);
}

#[test]
fn stock_profiles_have_expected_lengths() {
    assert_eq!(connected().len, 111);
    assert!(!connected().is_loop);
    assert_eq!(charging().len, 600);
    assert!(charging().is_loop);
    assert_eq!(low_battery().len, 545);
    assert_eq!(mode_ble().len, 121);
    assert_eq!(mode_2g4().len, 91);
    assert_eq!(mode_2g4().data[0], 204 * VP_LED_PWM_CYCLE / 255);
    assert_eq!(mode_2g4().data[15], 0);
}

#[test]
fn runtime_new_is_idle() {
    let m = LedManager::new();
    assert_eq!(m.persistent(), None);
}

#[test]
fn set_persistent_chargin_applies_immediately() {
    let mut m = LedManager::new();
    let cmd = m.set_persistent(Some(PersistentState::Charging));
    assert_eq!(m.persistent(), Some(PersistentState::Charging));
    assert_eq!(cmd, Some(LedCommand::Play(PersistentState::Charging)));
}

#[test]
fn clear_persistent_stops() {
    let mut m = LedManager::new();
    m.set_persistent(Some(PersistentState::Charging));
    let cmd = m.set_persistent(None);
    assert_eq!(m.persistent(), None);
    assert_eq!(cmd, Some(LedCommand::Stop));
    assert_eq!(m.set_persistent(None), None);
}

#[test]
fn transient_suppresses_persistent_until_done() {
    let mut m = LedManager::new();
    m.set_persistent(Some(PersistentState::Charging));
    m.begin_transient(100, 0);
    assert_eq!(m.set_persistent(Some(PersistentState::LowBattery)), None);
    m.poll(50);
    assert_eq!(m.persistent(), Some(PersistentState::LowBattery));
    let (again, cmd) = m.poll(150);
    assert!(!again);
    assert_eq!(cmd, Some(LedCommand::Play(PersistentState::LowBattery)));
    assert!(m.transient_end_ms().is_none());
}

#[test]
fn transient_ends_triggers_persistent_apply() {
    let mut m = LedManager::new();
    m.set_persistent(Some(PersistentState::LowBattery));
    m.begin_transient(200, 100);
    m.poll(100);
    m.poll(350);
    assert!(m.transient_end_ms().is_none());
}

#[test]
fn transient_schedules_one_tick_at_a_time() {
    let mut m = LedManager::new();
    m.begin_transient(100, 0);
    assert_eq!(m.poll(5), (false, None));
    assert_eq!(m.poll(10), (true, None));
    assert_eq!(m.poll(30), (false, None));
    m.clear_tick_scheduled();
    assert_eq!(m.poll(30), (true, None));
    assert_eq!(m.poll(100), (false, None));
    assert!(m.transient_end_ms().is_none());
}

#[test]
fn tick_pacing_counts_from_last_granted_tick() {
    let mut m = LedManager::new();
    assert_eq!(m.poll(5), (false, None));
    m.begin_transient(100, 0);
    assert_eq!(m.poll(10), (true, None));
    m.clear_tick_scheduled();
    assert_eq!(m.poll(15), (false, None));
    assert_eq!(m.poll(19), (false, None));
    assert_eq!(m.poll(20), (true, None));
    assert_eq!(m.poll(40), (false, None));
}

#[test]
fn transient_window_ends_at_duration() {
    let mut m = LedManager::new();
    m.set_persistent(Some(PersistentState::LowBattery));
    m.begin_transient(200, 100);
    assert_eq!(m.poll(100), (false, None));
    m.clear_tick_scheduled();
    assert_eq!(m.poll(299), (true, None));
    assert_eq!(m.transient_end_ms(), Some(300));
    assert_eq!(m.poll(350), (false, Some(LedCommand::Play(PersistentState::LowBattery))));
    assert!(m.transient_end_ms().is_none());
    assert_eq!(m.poll(400), (false, None));
}

#[test]
fn transient_window_wraps_around_the_clock() {
    let mut m = LedManager::new();
    let start = u32::MAX - 10;
    m.begin_transient(100, start);
    assert_eq!(m.transient_end_ms(), Some(89));
    assert_eq!(m.poll(20), (true, None));
    assert_eq!(m.poll(89), (false, None));
    assert!(m.transient_end_ms().is_none());
}

#[test]
fn new_transient_replaces_running_one() {
    let mut m = LedManager::new();
    m.set_persistent(Some(PersistentState::Charging));
    m.begin_transient(100, 0);
    m.begin_transient(100, 50);
    assert_eq!(m.transient_end_ms(), Some(150));
    assert_eq!(m.poll(120), (true, None));
    assert_eq!(m.poll(150), (false, Some(LedCommand::Play(PersistentState::Charging))));
}
