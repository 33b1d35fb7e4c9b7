use ps4_midi_mapper::hid_report::{dpad_updates, min, HidReportState, HidTouchpad, RawIoState, TouchpadFormat};
use ps4_midi_mapper::profiles::{ConnectionType, ProfileFactory};
use ps4_midi_mapper::types::{Axis, Button, RawEvent};

fn ds4_usb_report() -> [u8; 64] {
    let mut d = [0u8; 64];
    d[0] = 0x01;
    d[1] = 0x80;
    d[2] = 0x81;
    d[3] = 0x82;
    d[4] = 0x83;
    d[5] = 0x28; // Cross, hat released
    d[6] = 0x01; // L1
    d[7] = 0x01; // PS
    d[8] = 0x00;
    d[9] = 0xFF;
    d
}

fn ds4_samples(d: &[u8], s: usize) -> Vec<RawEvent> {
    vec![
        RawEvent::StickSample { axis: Axis::LeftStickX, raw: d[s], invert: false },
        RawEvent::StickSample { axis: Axis::LeftStickY, raw: d[s + 1], invert: true },
        RawEvent::StickSample { axis: Axis::RightStickX, raw: d[s + 2], invert: false },
        RawEvent::StickSample { axis: Axis::RightStickY, raw: d[s + 3], invert: true },
        RawEvent::TriggerSample { axis: Axis::L2, raw: d[s + 7] },
        RawEvent::TriggerSample { axis: Axis::R2, raw: d[s + 8] },
    ]
}

#[test]
fn dualshock_report_reports_pressed_buttons_then_samples() {
    let d = ds4_usb_report();
    let mut state = HidReportState::new(true);
    let mut events = Vec::new();
    state.parse_dualshock_report(&d, &mut events);
    let mut expected = vec![
        RawEvent::ButtonPress { button: Button::Cross, pressed: true },
        RawEvent::ButtonPress { button: Button::L1, pressed: true },
        RawEvent::ButtonPress { button: Button::PS, pressed: true },
    ];
    expected.extend(ds4_samples(&d, 1));
    assert_eq!(events, expected);
}

#[test]
fn same_dualshock_report_twice_reports_buttons_once() {
    let d = ds4_usb_report();
    let mut state = HidReportState::new(true);
    let mut first = Vec::new();
    state.parse_dualshock_report(&d, &mut first);
    let mut again = Vec::new();
    state.parse_dualshock_report(&d, &mut again);
    assert_eq!(again, ds4_samples(&d, 1));
}

#[test]
fn dualshock_release_and_hat() {
    let d = ds4_usb_report();
    let mut state = HidReportState::new(true);
    let mut events = Vec::new();
    state.parse_dualshock_report(&d, &mut events);
    let mut next = d;
    next[5] = 0x02; // Cross released, hat pointing right
    next[6] = 0x00;
    let mut events2 = Vec::new();
    state.parse_dualshock_report(&next, &mut events2);
    let mut expected = vec![
        RawEvent::ButtonPress { button: Button::Cross, pressed: false },
        RawEvent::ButtonPress { button: Button::L1, pressed: false },
        RawEvent::ButtonPress { button: Button::DpadRight, pressed: true },
    ];
    expected.extend(ds4_samples(&next, 1));
    assert_eq!(events2, expected);
}

#[test]
fn short_dualshock_report_changes_nothing() {
    let mut state = HidReportState::new(true);
    let mut events = Vec::new();
    state.parse_dualshock_report(&[1, 2, 3], &mut events);
    assert!(events.is_empty());
}

#[test]
fn bluetooth_report_id_switches_layout() {
    let mut state = HidReportState::new(true);
    state.last_report = vec![0x11];
    let mut d = [0u8; 64];
    d[0] = 0x11;
    d[3] = 0x70;
    d[7] = 0x28; // Cross in the Bluetooth layout, hat released
    let mut events = Vec::new();
    state.parse_hid_report(&d, &mut events);
    assert!(state.is_bluetooth);
    let mut expected = vec![RawEvent::ButtonPress { button: Button::Cross, pressed: true }];
    expected.extend(ds4_samples(&d, 3));
    assert_eq!(events, expected);
}

#[test]
fn generic_report_sticks_then_buttons() {
    let mut state = HidReportState::new(false);
    let d = [0u8, 10, 20, 30, 40, 0x01, 0x02];
    let mut events = Vec::new();
    state.parse_hid_report(&d, &mut events);
    assert_eq!(
        events,
        vec![
            RawEvent::StickSample { axis: Axis::LeftStickX, raw: 10, invert: false },
            RawEvent::StickSample { axis: Axis::LeftStickY, raw: 20, invert: true },
            RawEvent::StickSample { axis: Axis::RightStickX, raw: 30, invert: false },
            RawEvent::StickSample { axis: Axis::RightStickY, raw: 40, invert: true },
            RawEvent::ButtonPress { button: Button::Cross, pressed: true },
            RawEvent::ButtonPress { button: Button::Options, pressed: true },
        ]
    );
    let mut again = Vec::new();
    state.parse_hid_report(&d, &mut again);
    assert_eq!(again.len(), 4);
}

#[test]
fn dpad_hat_values() {
    assert_eq!(
        dpad_updates(1),
        vec![
            (Button::DpadUp, true),
            (Button::DpadRight, true),
            (Button::DpadDown, false),
            (Button::DpadLeft, false),
        ]
    );
    assert!(dpad_updates(8).iter().all(|(_, p)| !*p));
    let mut state = HidReportState::new(true);
    let mut events = Vec::new();
    state.process_dpad(6, &mut events);
    assert_eq!(events, vec![RawEvent::ButtonPress { button: Button::DpadLeft, pressed: true }]);
}

#[test]
fn smaller_of_two_sizes() {
    assert_eq!(min(3, 5), 3);
    assert_eq!(min(7, 2), 2);
    assert_eq!(min(4, 4), 4);
}

#[test]
fn touchpad_format_guesses() {
    let mut t = HidTouchpad::new();
    t.detect_touchpad_format(&[0, 1, 2, 0, 0]);
    assert!(t.touchpad_format_detected);
    assert_eq!(
        t.touchpad_format,
        TouchpadFormat::HIDTouchpad2 { x_offset: 1, y_offset: 2, touch_byte: 0, touch_mask: 0x01 }
    );
    let mut short = HidTouchpad::new();
    short.detect_touchpad_format(&[0, 1, 2, 3]);
    assert!(!short.touchpad_format_detected);
    assert_eq!(short.touchpad_format, TouchpadFormat::Unknown);
}

#[test]
fn separate_touchpad_touch_move_and_release() {
    let mut t = HidTouchpad::new();
    let mut events = Vec::new();
    t.process_touchpad_data(&[0x00, 0x64, 0x00, 0x32, 0x00], &mut events);
    assert_eq!(
        t.touchpad_format,
        TouchpadFormat::HIDTouchpad1 { x_offset: 1, y_offset: 3, touch_byte: 0, touch_mask: 0x01 }
    );
    assert_eq!(
        events,
        vec![
            RawEvent::TouchpadMove { x: Some(100), y: Some(50) },
            RawEvent::TouchpadAxis { axis: Axis::TouchpadX, coord: 100 },
            RawEvent::TouchpadAxis { axis: Axis::TouchpadY, coord: 50 },
        ]
    );
    let mut same = Vec::new();
    t.process_touchpad_data(&[0x00, 0x64, 0x00, 0x32, 0x00], &mut same);
    assert!(same.is_empty());
    let mut released = Vec::new();
    t.process_touchpad_data(&[0, 0, 0, 0, 0], &mut released);
    assert_eq!(
        released,
        vec![
            RawEvent::TouchpadCenter { axis: Axis::TouchpadX },
            RawEvent::TouchpadCenter { axis: Axis::TouchpadY },
        ]
    );
    t.restart_format_detection();
    assert_eq!(t.touchpad_format, TouchpadFormat::Unknown);
    assert!(!t.touchpad_format_detected);
}

#[test]
fn touchpad_blocks_shorter_than_three_bytes_are_ignored() {
    let mut t = HidTouchpad::new();
    let mut events = Vec::new();
    t.process_touchpad_data(&[5, 6], &mut events);
    assert!(events.is_empty());
    assert_eq!(t.touchpad_format, TouchpadFormat::Unknown);
}

#[test]
fn raw_report_with_dualshock_profile() {
    let profile = ProfileFactory::create_dualshock4_profile(1, ConnectionType::USB);
    let d = ds4_usb_report();
    let mut state = RawIoState::new(true, false);
    let mut events = Vec::new();
    state.parse_with_profile(&d, &profile, &mut events);
    assert_eq!(events[0], RawEvent::ButtonPress { button: Button::Cross, pressed: true });
    assert_eq!(events[1], RawEvent::ButtonPress { button: Button::L1, pressed: true });
    assert_eq!(events[2], RawEvent::ButtonPress { button: Button::PS, pressed: true });
    assert_eq!(events.len(), 3 + 6);
    for (k, (axis, config)) in profile.axis_config.iter().enumerate() {
        assert_eq!(events[3 + k], RawEvent::AxisSample { axis: *axis, config: *config, raw: d[config.byte_index] });
    }
}

#[test]
fn raw_report_touchpad_coordinates() {
    let profile = ProfileFactory::create_dualshock4_profile(1, ConnectionType::USB);
    let mut d = ds4_usb_report();
    d[33] = 0x00; // touching
    d[34] = 0x01; // x high nibble 1
    d[35] = 0x20; // x low byte 0x20, y high nibble 2
    d[36] = 0x10; // y low byte
    let mut state = RawIoState::new(true, false);
    let mut events = Vec::new();
    state.parse_report(&d, &profile, &mut events);
    let tail: Vec<RawEvent> = events[events.len() - 3..].to_vec();
    assert_eq!(
        tail,
        vec![
            RawEvent::TouchpadMove { x: Some(0x120), y: Some(0x210) },
            RawEvent::TouchpadAxis { axis: Axis::TouchpadX, coord: 0x120 },
            RawEvent::TouchpadAxis { axis: Axis::TouchpadY, coord: 0x210 },
        ]
    );
}
