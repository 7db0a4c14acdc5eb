//! Tests of the normalizer, the code table and the state differ.

use padsync::axis::{in_deadzone, normalize, AxisInfo, Normalized};
use padsync::diff::{compare_state, is_mask_eq};
use padsync::event::{Axis, Button, Event, EventType};
use padsync::native_ev_codes::{
    axes_table, axis_info_of, buttons_table, AXIS_CODE_COUNT, AXIS_LEFTZ, AXIS_LSTICKX,
    AXIS_LSTICKY, AXIS_LT, AXIS_LT2, AXIS_RSTICKX, AXIS_RSTICKY, AXIS_RT2, BTN_DPAD_LEFT,
    BTN_EAST, BTN_SELECT, BTN_SOUTH, BTN_START, BTN_WEST, LEFT_THUMB_DEADZONE, MASK_DPAD_LEFT,
    MASK_EAST, MASK_SELECT, MASK_SOUTH, MASK_START, MASK_WEST, RIGHT_THUMB_DEADZONE,
    TRIGGER_THRESHOLD,
};
use padsync::snapshot::Snapshot;

fn stick_info() -> AxisInfo {
    AxisInfo { min: -32768, max: 32767, deadzone: LEFT_THUMB_DEADZONE }
}

fn trigger_info() -> AxisInfo {
    AxisInfo { min: 0, max: 255, deadzone: TRIGGER_THRESHOLD }
}

fn as_f32(v: Normalized) -> f32 {
    v.num as f32 / v.den as f32
}

fn snap(buttons: u16, axes: &[(u16, i32)]) -> Snapshot {
    let mut raw = vec![0i32; AXIS_CODE_COUNT];
    for &(code, value) in axes {
        raw[code as usize] = value;
    }
    Snapshot::new(buttons, raw)
}

#[test]
fn normalize_stick_extremes() {
    let info = stick_info();
    assert_eq!(as_f32(normalize(32767, &info)), 1.0);
    assert_eq!(as_f32(normalize(-32768, &info)), -1.0);
    assert_eq!(as_f32(normalize(0, &info)), 0.0);
}

#[test]
fn normalize_uses_asymmetric_divisor() {
    let info = stick_info();
    let pos = normalize(16384, &info);
    assert_eq!(pos.num, 16384);
    assert_eq!(pos.den, 32767);
    let neg = normalize(-16384, &info);
    assert_eq!(neg.num, -16384);
    assert_eq!(neg.den, 32768);
    assert_eq!(as_f32(neg), -0.5);
}

#[test]
fn normalize_trigger_range() {
    let info = trigger_info();
    assert_eq!(as_f32(normalize(0, &info)), 0.0);
    assert_eq!(as_f32(normalize(255, &info)), 1.0);
    let mid = normalize(128, &info);
    assert_eq!(mid.num, 128);
    assert_eq!(mid.den, 255);
}

#[test]
fn deadzone_is_inclusive() {
    let info = stick_info();
    assert!(in_deadzone(0, &info));
    assert!(in_deadzone(7849, &info));
    assert!(in_deadzone(-7849, &info));
    assert!(!in_deadzone(7850, &info));
    assert!(!in_deadzone(-7850, &info));
    let t = trigger_info();
    assert!(in_deadzone(30, &t));
    assert!(!in_deadzone(31, &t));
    // The radius is a magnitude from the rest position: a reading far below
    // a unidirectional axis's minimum is outside the deadzone too.
    assert!(in_deadzone(-30, &t));
    assert!(!in_deadzone(-31, &t));
}

#[test]
fn axis_info_table_contents() {
    assert_eq!(
        axis_info_of(AXIS_LSTICKX),
        Some(AxisInfo { min: -32768, max: 32767, deadzone: LEFT_THUMB_DEADZONE })
    );
    assert_eq!(
        axis_info_of(AXIS_RSTICKY),
        Some(AxisInfo { min: -32768, max: 32767, deadzone: RIGHT_THUMB_DEADZONE })
    );
    assert_eq!(
        axis_info_of(AXIS_LT2),
        Some(AxisInfo { min: 0, max: 255, deadzone: TRIGGER_THRESHOLD })
    );
    assert_eq!(axis_info_of(AXIS_LEFTZ), None);
    assert_eq!(axis_info_of(AXIS_LT), None);
    assert_eq!(axis_info_of(999), None);
}

#[test]
fn declared_table_order() {
    assert_eq!(
        axes_table(),
        vec![AXIS_LSTICKX, AXIS_LSTICKY, AXIS_RSTICKX, AXIS_RSTICKY, AXIS_RT2, AXIS_LT2]
    );
    let buttons = buttons_table();
    assert_eq!(buttons.len(), 15);
    assert_eq!(buttons[0], BTN_SOUTH);
    assert_eq!(buttons[1], BTN_EAST);
    assert_eq!(buttons[11], padsync::native_ev_codes::BTN_DPAD_UP);
    assert_eq!(buttons[14], padsync::native_ev_codes::BTN_DPAD_RIGHT);
}

#[test]
fn mask_eq_compares_single_bit() {
    assert!(is_mask_eq(0b0011, 0b0001, 0b0001));
    assert!(!is_mask_eq(0b0010, 0b0001, 0b0001));
    assert!(is_mask_eq(0xFFFF, 0x0000, 0x0000));
}

#[test]
fn diff_of_identical_snapshots_is_empty() {
    let s = snap(MASK_SOUTH | MASK_START, &[(AXIS_LSTICKX, 30000), (AXIS_RT2, 200)]);
    let t = snap(MASK_SOUTH | MASK_START, &[(AXIS_LSTICKX, 30000), (AXIS_RT2, 200)]);
    assert_eq!(compare_state(0, &s, &t), vec![]);
}

#[test]
fn diff_axis_before_button() {
    let a = snap(0, &[]);
    let b = snap(MASK_SOUTH, &[(AXIS_LSTICKX, 32767)]);
    let events = compare_state(3, &b, &a);
    assert_eq!(events.len(), 2);
    assert_eq!(events[0].id, 3);
    match events[0].event {
        EventType::AxisChanged(axis, value, code) => {
            assert_eq!(axis, Axis::LeftStickX);
            assert_eq!(code, AXIS_LSTICKX);
            assert_eq!(as_f32(value), 1.0);
        }
        other => panic!("expected an axis change, got {:?}", other),
    }
    assert_eq!(events[1], Event::new(3, EventType::ButtonPressed(Button::South, BTN_SOUTH)));
}

#[test]
fn diff_suppresses_readings_inside_deadzone() {
    let a = snap(0, &[]);
    let within = snap(0, &[(AXIS_LSTICKX, 5000)]);
    assert_eq!(compare_state(0, &within, &a), vec![]);
    let boundary = snap(0, &[(AXIS_LSTICKX, 7849)]);
    assert_eq!(compare_state(0, &boundary, &a), vec![]);
    let outside = snap(0, &[(AXIS_LSTICKX, 7850)]);
    assert_eq!(compare_state(0, &outside, &a).len(), 1);
}

#[test]
fn diff_suppresses_return_to_rest() {
    // The current reading rests inside the deadzone, so even a change from a
    // large previous reading is suppressed entirely.
    let a = snap(0, &[(AXIS_LSTICKX, 30000)]);
    let b = snap(0, &[(AXIS_LSTICKX, 0)]);
    assert_eq!(compare_state(0, &b, &a), vec![]);
}

#[test]
fn diff_emits_one_event_per_changed_button() {
    let a = snap(MASK_EAST | MASK_SELECT, &[]);
    let b = snap(MASK_SOUTH | MASK_START | MASK_DPAD_LEFT | MASK_SELECT, &[]);
    let events = compare_state(0, &b, &a);
    // Changed bits: south (pressed), east (released), start (pressed),
    // dpad-left (pressed); select is unchanged. Table order.
    assert_eq!(events.len(), 4);
    assert_eq!(events[0].event, EventType::ButtonPressed(Button::South, BTN_SOUTH));
    assert_eq!(events[1].event, EventType::ButtonReleased(Button::East, BTN_EAST));
    assert_eq!(events[2].event, EventType::ButtonPressed(Button::Start, BTN_START));
    assert_eq!(events[3].event, EventType::ButtonPressed(Button::DPadLeft, BTN_DPAD_LEFT));
    for e in &events {
        assert_ne!(e.event, EventType::ButtonPressed(Button::Select, BTN_SELECT));
        assert_ne!(e.event, EventType::ButtonReleased(Button::Select, BTN_SELECT));
    }
}

#[test]
fn diff_press_and_release_in_table_order() {
    let a = snap(MASK_WEST, &[]);
    let b = snap(MASK_EAST, &[]);
    let events = compare_state(0, &b, &a);
    assert_eq!(events.len(), 2);
    assert_eq!(events[0].event, EventType::ButtonPressed(Button::East, BTN_EAST));
    assert_eq!(events[1].event, EventType::ButtonReleased(Button::West, BTN_WEST));
}

#[test]
fn diff_trigger_change() {
    let a = snap(0, &[]);
    let b = snap(0, &[(AXIS_LT2, 200)]);
    let events = compare_state(0, &b, &a);
    assert_eq!(events.len(), 1);
    match events[0].event {
        EventType::AxisChanged(axis, value, code) => {
            assert_eq!(axis, Axis::LeftTrigger2);
            assert_eq!(code, AXIS_LT2);
            assert_eq!(value.num, 200);
            assert_eq!(value.den, 255);
        }
        other => panic!("expected an axis change, got {:?}", other),
    }
}

#[test]
fn diff_ignores_unmapped_bits() {
    // 0x0400 and 0x0800 carry no button code on this hardware.
    let a = snap(0, &[]);
    let b = snap(0x0400 | 0x0800, &[]);
    assert_eq!(compare_state(0, &b, &a), vec![]);
}

#[test]
fn diff_both_sticks_and_y_axis() {
    let a = snap(0, &[(AXIS_LSTICKY, -32768)]);
    let b = snap(0, &[(AXIS_LSTICKY, 0), (AXIS_RSTICKX, 20000)]);
    let events = compare_state(1, &b, &a);
    // The left-stick change lands on rest and is suppressed; the right-stick
    // change is outside its deadzone.
    assert_eq!(events.len(), 1);
    match events[0].event {
        EventType::AxisChanged(axis, value, code) => {
            assert_eq!(axis, Axis::RightStickX);
            assert_eq!(code, AXIS_RSTICKX);
            assert_eq!(value.num, 20000);
            assert_eq!(value.den, 32767);
        }
        other => panic!("expected an axis change, got {:?}", other),
    }
}
