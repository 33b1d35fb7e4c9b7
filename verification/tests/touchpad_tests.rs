use ps4_midi_mapper::touchpad::{
    touch_display_updates, DisplayUpdate, position_moves, EvKind, EvdevTouchpad, HidTouchTracker, RawTouchTracker, TouchInput, ABS_MT_POSITION_X, ABS_MT_POSITION_Y,
    ABS_MT_TRACKING_ID, BTN_LEFT, BTN_TOUCH,
};
use ps4_midi_mapper::types::{Axis, Button, RawEvent};

fn abs(code: u16, value: i32) -> TouchInput {
    TouchInput { kind: EvKind::Absolute, code, value }
}

fn key(code: u16, value: i32) -> TouchInput {
    TouchInput { kind: EvKind::Key, code, value }
}

fn sync() -> TouchInput {
    TouchInput { kind: EvKind::Synchronization, code: 0, value: 0 }
}

#[test]
fn hid_tracker_reports_only_moved_axes() {
    let mut t = HidTouchTracker::new();
    let mut events = Vec::new();
    t.update_touchpad_position(100, 200, &mut events);
    t.update_touchpad_position(100, 200, &mut events);
    t.update_touchpad_position(101, 200, &mut events);
    assert_eq!(
        events,
        vec![
            RawEvent::TouchpadMove { x: Some(100), y: Some(200) },
            RawEvent::TouchpadAxis { axis: Axis::TouchpadX, coord: 100 },
            RawEvent::TouchpadAxis { axis: Axis::TouchpadY, coord: 200 },
            RawEvent::TouchpadMove { x: Some(101), y: Some(200) },
            RawEvent::TouchpadAxis { axis: Axis::TouchpadX, coord: 101 },
        ]
    );
    let mut end = Vec::new();
    t.end_touch(&mut end);
    t.end_touch(&mut end);
    assert_eq!(
        end,
        vec![
            RawEvent::TouchpadCenter { axis: Axis::TouchpadX },
            RawEvent::TouchpadCenter { axis: Axis::TouchpadY },
        ]
    );
}

#[test]
fn raw_tracker_ignores_moves_of_five_or_less() {
    let mut t = RawTouchTracker::new();
    let mut events = Vec::new();
    t.update_touchpad_position(100, 100, &mut events);
    assert_eq!(events.len(), 3);
    t.update_touchpad_position(105, 95, &mut events);
    assert_eq!(events.len(), 3);
    t.update_touchpad_position(106, 100, &mut events);
    assert_eq!(
        events[3..].to_vec(),
        vec![
            RawEvent::TouchpadMove { x: Some(106), y: Some(100) },
            RawEvent::TouchpadAxis { axis: Axis::TouchpadX, coord: 106 },
            RawEvent::TouchpadAxis { axis: Axis::TouchpadY, coord: 100 },
        ]
    );
}

#[test]
fn evdev_batch_reports_position_at_sync() {
    let mut pad = EvdevTouchpad::new();
    let batch = vec![
        abs(ABS_MT_TRACKING_ID, 7),
        abs(ABS_MT_POSITION_X, 500),
        abs(ABS_MT_POSITION_Y, 300),
        sync(),
    ];
    let events = pad.process_touchpad_events(&batch);
    assert_eq!(
        events,
        vec![
            RawEvent::TouchpadMove { x: Some(500), y: Some(300) },
            RawEvent::TouchpadAxis { axis: Axis::TouchpadX, coord: 500 },
            RawEvent::TouchpadAxis { axis: Axis::TouchpadY, coord: 300 },
        ]
    );
    assert!(pad.touchpad_active);
    assert_eq!((pad.touchpad_x, pad.touchpad_y), (500, 300));
}

#[test]
fn evdev_batch_release_and_click() {
    let mut pad = EvdevTouchpad::new();
    pad.process_touchpad_events(&vec![key(BTN_TOUCH, 1), abs(ABS_MT_POSITION_X, 10), sync()]);
    let events = pad.process_touchpad_events(&vec![key(BTN_LEFT, 1), abs(ABS_MT_TRACKING_ID, -1), sync()]);
    assert_eq!(
        events,
        vec![
            RawEvent::ButtonPress { button: Button::Touchpad, pressed: true },
            RawEvent::TouchpadCenter { axis: Axis::TouchpadX },
            RawEvent::TouchpadCenter { axis: Axis::TouchpadY },
        ]
    );
    assert!(!pad.touchpad_active);
}

#[test]
fn evdev_positions_without_touch_are_not_reported() {
    let mut pad = EvdevTouchpad::new();
    let events = pad.process_touchpad_events(&vec![abs(ABS_MT_POSITION_X, 10), sync()]);
    assert!(events.is_empty());
    assert_eq!(pad.touchpad_x, 10);
}

#[test]
fn single_coordinate_moves() {
    let batch = vec![abs(ABS_MT_POSITION_X, 11), sync(), abs(ABS_MT_POSITION_Y, 22), key(BTN_TOUCH, 1)];
    assert_eq!(
        position_moves(&batch),
        vec![
            RawEvent::TouchpadMove { x: Some(11), y: None },
            RawEvent::TouchpadMove { x: None, y: Some(22) },
        ]
    );
}

fn rows(updates: Vec<DisplayUpdate>) -> Vec<(String, String, String)> {
    updates.into_iter().map(|u| (u.control, u.value, u.output)).collect()
}

fn row(c: &str, v: &str, o: &str) -> (String, String, String) {
    (c.to_string(), v.to_string(), o.to_string())
}

#[test]
fn display_rows_for_a_reported_position() {
    let mut pad = EvdevTouchpad::new();
    let batch = vec![abs(ABS_MT_TRACKING_ID, 7), abs(ABS_MT_POSITION_X, 500), abs(ABS_MT_POSITION_Y, 300), sync()];
    let events = pad.process_touchpad_events(&batch);
    assert_eq!(
        rows(touch_display_updates(&events)),
        vec![row("Touchpad X", "500", "CC 29: 33"), row("Touchpad Y", "300", "CC 30: 86")]
    );
}

#[test]
fn display_rows_when_a_touch_ends() {
    let mut pad = EvdevTouchpad::new();
    pad.process_touchpad_events(&vec![key(BTN_TOUCH, 1), abs(ABS_MT_POSITION_X, 10), sync()]);
    let events = pad.process_touchpad_events(&vec![key(BTN_LEFT, 1), abs(ABS_MT_TRACKING_ID, -1), sync()]);
    assert_eq!(
        rows(touch_display_updates(&events)),
        vec![
            row("Touchpad Click", "true", "Note 53: ON"),
            row("Touchpad X", "0", "CC 29: 0"),
            row("Touchpad Y", "0", "CC 30: 0"),
        ]
    );
}

#[test]
fn display_rows_at_the_edges_of_the_pad() {
    let events = vec![
        RawEvent::TouchpadAxis { axis: Axis::TouchpadX, coord: 1920 },
        RawEvent::TouchpadAxis { axis: Axis::TouchpadY, coord: 0 },
        RawEvent::TouchpadAxis { axis: Axis::TouchpadX, coord: -5 },
        RawEvent::TouchpadAxis { axis: Axis::TouchpadY, coord: 942 },
        RawEvent::TouchpadAxis { axis: Axis::TouchpadX, coord: 100000 },
        RawEvent::ButtonPress { button: Button::Touchpad, pressed: false },
        RawEvent::TouchpadMove { x: Some(1), y: None },
    ];
    assert_eq!(
        rows(touch_display_updates(&events)),
        vec![
            row("Touchpad X", "1920", "CC 29: 127"),
            row("Touchpad Y", "0", "CC 30: 127"),
            row("Touchpad X", "-5", "CC 29: 0"),
            row("Touchpad Y", "942", "CC 30: 0"),
            row("Touchpad X", "100000", "CC 29: 255"),
            row("Touchpad Click", "false", "Note 53: OFF"),
        ]
    );
}
