use void_pointer_core::route::UsbState;
use void_pointer_core::runtime::deadline::{deadline_due, deadline_remaining_ms, usb_state_log_name};
use void_pointer_core::runtime::events::{EventQueue, RuntimeEvent};
use void_pointer_core::runtime::flags::{DirtyFlags, PendingFlags};
use void_pointer_core::sync::spsc::SpscQueue;
use void_pointer_core::utils::logger::format_module_path;

fn event(ts: u32) -> RuntimeEvent {
    RuntimeEvent::DebounceTick { timestamp: ts }
}

#[test]
fn new_is_empty() {
    let mut q = EventQueue::new();
    assert!(q.pop().is_none());
    assert!(q.is_empty());
    assert_eq!(q.stats().dropped, 0);
}

#[test]
fn events_push_then_pop() {
    let mut q = EventQueue::new();
    assert!(q.push(event(1)));
    assert!(!q.is_empty());
    assert_eq!(q.pop(), Some(event(1)));
    assert!(q.is_empty());
}

#[test]
fn events_fifo_order() {
    let mut q = EventQueue::new();
    q.push(event(10));
    q.push(event(20));
    q.push(event(30));
    assert_eq!(q.pop(), Some(event(10)));
    assert_eq!(q.pop(), Some(event(20)));
    assert_eq!(q.pop(), Some(event(30)));
}

#[test]
fn events_full_rejects_and_counts_dropped() {
    let mut q = EventQueue::new();
    let cap = 16usize;
    for i in 0..cap - 1 {
        assert!(q.push(event(i as u32)));
    }
    assert!(!q.push(event(99)));
    assert_eq!(q.stats().dropped, 1);
}

#[test]
fn events_pop_after_full() {
    let mut q = EventQueue::new();
    for i in 0..15 {
        q.push(event(i));
    }
    assert_eq!(q.pop(), Some(event(0)));
    assert!(q.push(event(99)));
    assert_eq!(q.pop(), Some(event(1)));
}

#[test]
fn events_wrap_around() {
    let mut q = EventQueue::new();
    for i in 0..15 {
        q.push(event(i));
    }
    for i in 0..15 {
        assert_eq!(q.pop(), Some(event(i as u32)));
    }
    for i in 100..114 {
        assert!(q.push(event(i)));
    }
    for i in 100..114 {
        assert_eq!(q.pop(), Some(event(i as u32)));
    }
}

#[test]
fn stats_dropped_no_false_positive() {
    let mut q = EventQueue::new();
    q.push(event(1));
    q.push(event(2));
    assert_eq!(q.stats().dropped, 0);
    q.pop();
    q.pop();
    assert_eq!(q.stats().dropped, 0);
}

#[test]
fn is_empty_edge_cases() {
    let mut q = EventQueue::new();
    assert!(q.is_empty());
    q.push(event(1));
    assert!(!q.is_empty());
    q.pop();
    assert!(q.is_empty());
    q.push(event(2));
    assert!(!q.is_empty());
}

#[test]
fn deadline_due_past() {
    assert!(deadline_due(200, 100));
}

#[test]
fn deadline_due_not_yet() {
    assert!(!deadline_due(50, 100));
}

#[test]
fn deadline_due_wrap_around() {
    assert!(deadline_due(100, u32::MAX));
}

#[test]
fn remaining_ms_returns_1_when_due() {
    assert_eq!(deadline_remaining_ms(200, 100), 1);
}

#[test]
fn remaining_ms_returns_difference() {
    assert_eq!(deadline_remaining_ms(50, 100), 50);
}

#[test]
fn remaining_ms_across_wrap() {
    assert_eq!(deadline_remaining_ms(u32::MAX - 9, 10), 20);
    assert!(deadline_due(10, 10));
}

#[test]
fn usb_state_log_name_all_variants() {
    assert_eq!(usb_state_log_name(UsbState::Detached), "detached");
    assert_eq!(usb_state_log_name(UsbState::Attached), "attached");
    assert_eq!(usb_state_log_name(UsbState::Configured), "configured");
    assert_eq!(usb_state_log_name(UsbState::Suspended), "suspended");
    assert_eq!(usb_state_log_name(UsbState::Error), "error");
}

#[test]
fn dirty_flags_any_false_when_all_clear() {
    let f = DirtyFlags::default();
    assert!(!f.any());
}

#[test]
fn dirty_flags_any_true_for_each_flag() {
    let flags = [
        DirtyFlags { input: true, ..Default::default() },
        DirtyFlags { motion: true, ..Default::default() },
        DirtyFlags { report: true, ..Default::default() },
        DirtyFlags { power: true, ..Default::default() },
        DirtyFlags { config: true, ..Default::default() },
    ];
    for f in &flags {
        assert!(f.any(), "expected any()=true for {:?}", f);
    }
}

#[test]
fn pending_flags_any_false_when_all_clear() {
    let f = PendingFlags::default();
    assert!(!f.any());
}

#[test]
fn pending_flags_any_true_for_each_flag() {
    let flags = [
        PendingFlags { events: true, ..Default::default() },
        PendingFlags { hid_retry: true, ..Default::default() },
        PendingFlags { imu_fifo_read: true, ..Default::default() },
        PendingFlags { vendor_rx: true, ..Default::default() },
        PendingFlags { config_save: true, ..Default::default() },
        PendingFlags { power_recheck: true, ..Default::default() },
    ];
    for f in &flags {
        assert!(f.any(), "expected any()=true for {:?}", f);
    }
}

fn filled<const N: usize>() -> SpscQueue<u32, N> {
    SpscQueue::from_array([0u32; N])
}

#[test]
fn pop_empty() {
    let mut q = filled::<4>();
    assert!(q.pop().is_none());
    assert!(q.is_empty());
}

#[test]
fn spsc_push_then_pop() {
    let mut q = filled::<4>();
    assert!(q.push(42));
    assert!(!q.is_empty());
    assert_eq!(q.pop(), Some(42));
    assert!(q.is_empty());
}

#[test]
fn spsc_fifo_order() {
    let mut q = filled::<4>();
    q.push(10);
    q.push(20);
    q.push(30);
    assert_eq!(q.pop(), Some(10));
    assert_eq!(q.pop(), Some(20));
    assert_eq!(q.pop(), Some(30));
}

#[test]
fn spsc_full_rejects_and_counts_dropped() {
    let mut q = filled::<4>();
    assert!(q.push(1));
    assert!(q.push(2));
    assert!(q.push(3));
    assert!(!q.push(4));
    assert_eq!(q.dropped(), 1);
    assert!(!q.push(5));
    assert_eq!(q.dropped(), 2);
}

#[test]
fn spsc_pop_after_full() {
    let mut q = filled::<4>();
    q.push(10);
    q.push(20);
    q.push(30);
    q.push(40);
    assert_eq!(q.pop(), Some(10));
    assert_eq!(q.pop(), Some(20));
}

#[test]
fn push_after_pop_reuses_slot() {
    let mut q = filled::<4>();
    q.push(1);
    q.push(2);
    q.push(3);
    assert_eq!(q.pop(), Some(1));
    assert!(q.push(4));
    assert!(!q.is_empty());
}

#[test]
fn spsc_wrap_around() {
    let mut q = filled::<4>();
    q.push(1);
    q.push(2);
    q.push(3);
    assert_eq!(q.pop(), Some(1));
    assert_eq!(q.pop(), Some(2));
    assert_eq!(q.pop(), Some(3));
    assert!(q.push(10));
    assert_eq!(q.pop(), Some(10));
    assert!(q.push(20));
    assert_eq!(q.pop(), Some(20));
}

#[test]
fn wrap_around_multiple_cycles() {
    let mut q = filled::<4>();
    for round in 0..10 {
        for i in 0..3 {
            assert!(q.push(round * 100 + i));
        }
        for i in 0..3 {
            assert_eq!(q.pop(), Some(round * 100 + i));
        }
    }
    assert!(q.is_empty());
    assert_eq!(q.dropped(), 0);
}

#[test]
fn capacity_2_basic() {
    let mut q = filled::<2>();
    assert!(q.push(1));
    assert!(!q.is_empty());
    assert_eq!(q.pop(), Some(1));
    assert!(q.is_empty());
}

#[test]
fn capacity_2_one_slot_headroom() {
    let mut q = filled::<2>();
    assert!(q.push(1));
    assert!(!q.push(2));
    assert_eq!(q.dropped(), 1);
    assert_eq!(q.pop(), Some(1));
    assert!(q.push(2));
    assert_eq!(q.pop(), Some(2));
}

#[test]
fn capacity_8_deep() {
    let mut q = filled::<8>();
    for i in 0..7 {
        assert!(q.push(i));
    }
    assert!(!q.push(99));
    assert_eq!(q.dropped(), 1);
    for i in 0..7 {
        assert_eq!(q.pop(), Some(i));
    }
    assert!(q.is_empty());
}

#[test]
fn drop_detail_default_zero() {
    let q = filled::<4>();
    assert_eq!(q.drop_detail(), 0);
}

#[test]
fn mark_drop_detail_accumulates() {
    let mut q = filled::<4>();
    q.mark_drop_detail(5);
    assert_eq!(q.drop_detail(), 5);
    q.mark_drop_detail(3);
    assert_eq!(q.drop_detail(), 8);
}

#[test]
fn dropped_zero_on_empty_pop() {
    let mut q = filled::<4>();
    assert!(q.pop().is_none());
    assert_eq!(q.dropped(), 0);
}

#[test]
fn dropped_not_counted_on_successful_push() {
    let mut q = filled::<4>();
    q.push(1);
    q.push(2);
    q.push(3);
    assert_eq!(q.dropped(), 0);
}

#[test]
fn from_array_with_non_zero() {
    let mut q = SpscQueue::from_array([10u32, 20, 30, 40]);
    assert!(q.is_empty());
    q.push(1);
    assert_eq!(q.pop(), Some(1));
}

#[test]
fn is_empty_after_push_pop_cycle() {
    let mut q = filled::<4>();
    assert!(q.is_empty());
    q.push(7);
    assert!(!q.is_empty());
    q.pop();
    assert!(q.is_empty());
}

#[test]
fn push_returns_true_on_success() {
    let mut q = filled::<4>();
    assert!(q.push(1));
    assert!(q.push(2));
    assert!(q.push(3));
}

#[test]
fn push_returns_false_when_full() {
    let mut q = filled::<4>();
    q.push(1);
    q.push(2);
    q.push(3);
    assert!(!q.push(4));
}

#[test]
fn pop_returns_none_when_empty_after_use() {
    let mut q = filled::<4>();
    q.push(5);
    q.pop();
    assert!(q.pop().is_none());
}

#[test]
fn dropped_and_drop_detail_independent() {
    let mut q = filled::<4>();
    q.push(1);
    q.push(2);
    q.push(3);
    q.push(4);
    assert_eq!(q.dropped(), 1);
    assert_eq!(q.drop_detail(), 0);
    q.mark_drop_detail(2);
    assert_eq!(q.dropped(), 1);
    assert_eq!(q.drop_detail(), 2);
}

#[test]
fn none_module_returns_question_mark() {
    assert_eq!(format_module_path(None), "?");
}

#[test]
fn root_crate_module_returns_core() {
    assert_eq!(format_module_path(Some("void_pointer_core")), "core");
}

#[test]
fn nested_module_strips_prefix() {
    assert_eq!(
        format_module_path(Some("void_pointer_core::config::load")),
        "config::load"
    );
}

#[test]
fn module_ends_with_mod() {
    assert_eq!(
        format_module_path(Some("void_pointer_core::config::load::mod")),
        "config::load"
    );
}

#[test]
fn foreign_module_is_kept() {
    assert_eq!(format_module_path(Some("postcard::de")), "postcard::de");
    assert_eq!(format_module_path(Some("void_pointer_corex")), "void_pointer_corex");
}
