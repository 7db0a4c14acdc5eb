//! Tests of the lifecycle tracker, the registry and the event queue.

use padsync::event::{Event, EventType};
use padsync::gamepad::{
    gamepad_new, Gamepad, PowerInfo, BATTERY_LEVEL_EMPTY, BATTERY_LEVEL_FULL, BATTERY_LEVEL_LOW,
    BATTERY_LEVEL_MEDIUM, BATTERY_TYPE_ALKALINE, BATTERY_TYPE_NIMH, BATTERY_TYPE_WIRED,
};
use padsync::gilrs::{Gilrs, MAX_GAMEPADS};
use padsync::lifecycle::{
    should_poll, QueryError, RawInput, Status, Tracker, ITERATIONS_TO_CHECK_IF_CONNECTED,
};
use padsync::native_ev_codes::{AXIS_CODE_COUNT, AXIS_LSTICKX, BTN_SOUTH, MASK_SOUTH};
use padsync::snapshot::Snapshot;

fn snap(buttons: u16, axes: &[(u16, i32)]) -> Snapshot {
    let mut raw = vec![0i32; AXIS_CODE_COUNT];
    for &(code, value) in axes {
        raw[code as usize] = value;
    }
    Snapshot::new(buttons, raw)
}

fn ok(packet: u32, snapshot: Snapshot) -> Result<RawInput, QueryError> {
    Ok(RawInput { packet, snapshot })
}

#[test]
fn prelude_lists_attached_devices_in_slot_order() {
    let mut g = Gilrs::new(vec![true, false, true, true]);
    assert_eq!(g.next_event(), Some(Event::new(0, EventType::Connected)));
    assert_eq!(g.next_event(), Some(Event::new(2, EventType::Connected)));
    assert_eq!(g.next_event(), Some(Event::new(3, EventType::Connected)));
    assert_eq!(g.next_event(), None);
}

#[test]
fn prelude_drains_before_live_events() {
    let mut g = Gilrs::new(vec![true, true, false, false]);
    g.handle_cycle(0, Err(QueryError::NotPresent));
    assert_eq!(g.next_event(), Some(Event::new(0, EventType::Connected)));
    assert_eq!(g.next_event(), Some(Event::new(1, EventType::Connected)));
    assert_eq!(g.next_event(), Some(Event::new(0, EventType::Disconnected)));
    assert_eq!(g.next_event(), None);
}

#[test]
fn placeholder_for_unobserved_and_out_of_range_slots() {
    // A stub registry never observes hardware, so every index resolves to
    // the one shared placeholder, in range or not.
    let g = Gilrs::new(vec![false; 4]);
    for id in [0, 1, 2, 3, MAX_GAMEPADS, MAX_GAMEPADS + 1, 1000, usize::MAX] {
        let pad = g.gamepad(id);
        assert_eq!(pad.status(), Status::NotObserved);
        assert_eq!(pad.name().as_str(), "");
        assert_eq!(pad.uuid(), 0);
        assert!(!pad.is_ff_supported());
        assert_eq!(pad.max_ff_effects(), 0);
        assert_eq!(pad.id, u32::MAX);
    }
}

#[test]
fn observed_slots_have_backend_identity() {
    let g = Gilrs::new(vec![true, false, false, false]);
    let pad = g.gamepad(0);
    assert_eq!(pad.name().as_str(), "Xbox Controller");
    assert_eq!(pad.uuid(), 0);
    assert!(pad.is_ff_supported());
    assert_eq!(pad.status(), Status::Connected);
    // A slot that never held hardware resolves to the placeholder even
    // though it is in range.
    assert_eq!(g.gamepad(1).name().as_str(), "");
    assert_eq!(g.gamepad(1).id, u32::MAX);
    assert_eq!(g.last_gamepad_hint(), 4);
}

#[test]
fn disconnected_slot_keeps_its_identity() {
    let mut g = Gilrs::new(vec![true, false, false, false]);
    g.handle_cycle(0, Err(QueryError::NotPresent));
    let pad = g.gamepad(0);
    assert_eq!(pad.status(), Status::Disconnected);
    assert_eq!(pad.name().as_str(), "Xbox Controller");
    assert_eq!(pad.id, 0);
}

#[test]
fn disconnect_emits_once_and_skips_differ() {
    let mut g = Gilrs::new(vec![true, false, false, false]);
    while g.next_event().is_some() {}
    // The device goes away while buttons were held: only the disconnect is
    // reported, the differ does not run that cycle.
    g.handle_cycle(0, Err(QueryError::NotPresent));
    assert_eq!(g.next_event(), Some(Event::new(0, EventType::Disconnected)));
    assert_eq!(g.next_event(), None);
    assert_eq!(g.gamepad(0).status(), Status::Disconnected);
    // A second absent report does not repeat the event.
    g.handle_cycle(0, Err(QueryError::NotPresent));
    assert_eq!(g.next_event(), None);
}

#[test]
fn transient_error_changes_nothing() {
    let mut g = Gilrs::new(vec![true, false, false, false]);
    while g.next_event().is_some() {}
    g.handle_cycle(0, Err(QueryError::Transient));
    assert_eq!(g.next_event(), None);
    assert_eq!(g.gamepad(0).status(), Status::Connected);
    g.handle_cycle(1, Err(QueryError::Transient));
    assert_eq!(g.gamepad(1).status(), Status::NotObserved);
}

#[test]
fn connect_edge_emits_once_and_sets_baseline() {
    let mut g = Gilrs::new(vec![false; 4]);
    assert_eq!(g.next_event(), None);
    // The first successful query connects; the differ does not run against
    // the fresh snapshot even though it differs from the zero baseline.
    g.handle_cycle(1, ok(5, snap(MASK_SOUTH, &[(AXIS_LSTICKX, 20000)])));
    assert_eq!(g.next_event(), Some(Event::new(1, EventType::Connected)));
    assert_eq!(g.next_event(), None);
    assert_eq!(g.gamepad(1).status(), Status::Connected);
    // An unchanged packet counter short-circuits the comparison.
    g.handle_cycle(1, ok(5, snap(0, &[])));
    assert_eq!(g.next_event(), None);
    // A changed packet diffs against the connect-cycle baseline.
    g.handle_cycle(1, ok(6, snap(0, &[(AXIS_LSTICKX, 20000)])));
    assert_eq!(
        g.next_event(),
        Some(Event::new(1, EventType::ButtonReleased(padsync::event::Button::South, BTN_SOUTH)))
    );
    assert_eq!(g.next_event(), None);
}

#[test]
fn lifecycle_alternates_across_cycles() {
    let mut t = Tracker::new(false);
    let mut conn_events: Vec<EventType> = Vec::new();
    let cycles: Vec<Result<RawInput, QueryError>> = vec![
        ok(1, snap(0, &[])),
        ok(2, snap(0, &[])),
        Err(QueryError::NotPresent),
        Err(QueryError::NotPresent),
        Err(QueryError::Transient),
        ok(3, snap(0, &[])),
        Err(QueryError::NotPresent),
    ];
    for q in cycles {
        for e in t.step(7, q) {
            assert_eq!(e.id, 7);
            match e.event {
                EventType::Connected | EventType::Disconnected => conn_events.push(e.event),
                _ => {}
            }
        }
    }
    assert_eq!(
        conn_events,
        vec![
            EventType::Connected,
            EventType::Disconnected,
            EventType::Connected,
            EventType::Disconnected,
        ]
    );
}

#[test]
fn tracker_initial_states() {
    assert_eq!(Tracker::new(true).status, Status::Connected);
    assert_eq!(Tracker::new(false).status, Status::NotObserved);
}

#[test]
fn packet_short_circuit_skips_field_comparison() {
    let mut t = Tracker::new(true);
    // Same packet counter as the zero baseline: nothing is compared.
    let events = t.step(0, ok(0, snap(MASK_SOUTH, &[])));
    assert_eq!(events, vec![]);
    // A fresh counter makes the change visible.
    let events = t.step(0, ok(1, snap(MASK_SOUTH, &[])));
    assert_eq!(events.len(), 1);
    assert_eq!(
        events[0].event,
        EventType::ButtonPressed(padsync::event::Button::South, BTN_SOUTH)
    );
}

#[test]
fn should_poll_throttles_absent_slots() {
    assert!(should_poll(Status::Connected, 1));
    assert!(should_poll(Status::Connected, 55));
    assert!(should_poll(Status::Disconnected, 0));
    assert!(should_poll(Status::Disconnected, ITERATIONS_TO_CHECK_IF_CONNECTED));
    assert!(!should_poll(Status::Disconnected, 55));
    assert!(should_poll(Status::NotObserved, 200));
    assert!(!should_poll(Status::NotObserved, 201));
}

#[test]
fn power_info_mapping() {
    let pad = gamepad_new(0, true);
    assert_eq!(pad.power_info(None), PowerInfo::Unknown);
    assert_eq!(pad.power_info(Some((BATTERY_TYPE_WIRED, 0))), PowerInfo::Wired);
    assert_eq!(
        pad.power_info(Some((BATTERY_TYPE_ALKALINE, BATTERY_LEVEL_EMPTY))),
        PowerInfo::Discharging(0)
    );
    assert_eq!(
        pad.power_info(Some((BATTERY_TYPE_ALKALINE, BATTERY_LEVEL_LOW))),
        PowerInfo::Discharging(33)
    );
    assert_eq!(
        pad.power_info(Some((BATTERY_TYPE_NIMH, BATTERY_LEVEL_MEDIUM))),
        PowerInfo::Discharging(67)
    );
    assert_eq!(pad.power_info(Some((BATTERY_TYPE_NIMH, BATTERY_LEVEL_FULL))), PowerInfo::Charged);
    // An unreported battery type or level degrades to unknown.
    assert_eq!(pad.power_info(Some((0xFF, BATTERY_LEVEL_FULL))), PowerInfo::Unknown);
    assert_eq!(pad.power_info(Some((BATTERY_TYPE_NIMH, 9))), PowerInfo::Unknown);
}

#[test]
fn set_ff_gain_is_a_no_op() {
    let mut pad = gamepad_new(2, true);
    pad.set_ff_gain(40000);
    assert_eq!(pad.name().as_str(), "Xbox Controller");
    assert_eq!(pad.id, 2);
    assert!(pad.is_ff_supported());
}

#[test]
fn placeholder_constructor_is_neutral() {
    let pad = Gamepad::none();
    assert_eq!(pad.status(), Status::NotObserved);
    assert_eq!(pad.name().as_str(), "");
    assert_eq!(pad.uuid(), 0);
    assert!(!pad.is_ff_supported());
    assert_eq!(pad.max_ff_effects(), 0);
    assert_eq!(pad.id, u32::MAX);
}

#[test]
fn gamepad_mut_reaches_slots_and_placeholder() {
    let mut g = Gilrs::new(vec![true, true, true, false]);
    assert_eq!(g.gamepad_mut(2).id, 2);
    g.gamepad_mut(2).set_ff_gain(40000);
    g.gamepad_mut(2).max_ff = 7;
    assert_eq!(g.gamepad(2).max_ff_effects(), 7);
    // Out-of-range and never-observed indices both reach the placeholder.
    assert_eq!(g.gamepad_mut(usize::MAX).id, u32::MAX);
    assert_eq!(g.gamepad_mut(3).id, u32::MAX);
    assert_eq!(g.gamepad_mut(4).status(), Status::NotObserved);
}

#[test]
fn pool_events_drains_everything_in_order() {
    let mut g = Gilrs::new(vec![true, true, false, false]);
    g.handle_cycle(1, Err(QueryError::NotPresent));
    let drained = g.pool_events();
    assert_eq!(
        drained,
        vec![
            Event::new(0, EventType::Connected),
            Event::new(1, EventType::Connected),
            Event::new(1, EventType::Disconnected),
        ]
    );
    assert_eq!(g.next_event(), None);
}

#[test]
fn gamepad_tables_exposed_per_device() {
    let g = Gilrs::new(vec![false; 4]);
    let pad = g.gamepad(0);
    assert_eq!(pad.axes().len(), 6);
    assert_eq!(pad.buttons().len(), 15);
    assert!(pad.axis_info(AXIS_LSTICKX).is_some());
}
