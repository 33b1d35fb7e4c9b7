use ps4_midi_mapper::types::{Axis, Button, RawEvent};
use ps4_midi_mapper::xinput::{
    normalize_axis, normalize_stick, normalize_trigger, normalize_trigger_deadzone, XInputChangeTracker,
    XInputGamepad, XInputPad, XINPUT_GAMEPAD_A, XINPUT_GAMEPAD_DPAD_UP,
};

fn rest() -> XInputGamepad {
    XInputGamepad {
        w_buttons: 0,
        b_left_trigger: 0,
        b_right_trigger: 0,
        s_thumb_lx: 0,
        s_thumb_ly: 0,
        s_thumb_rx: 0,
        s_thumb_ry: 0,
    }
}

#[test]
fn stick_normalization_with_deadzone() {
    assert_eq!(normalize_stick(1000, 7849), (0, 1));
    assert_eq!(normalize_stick(32767, 7849), (32767 - 7849, 32767 - 7849));
    assert_eq!(normalize_stick(-10000, 7849), (-(10000 - 7849), 32767 - 7849));
}

#[test]
fn stick_normalization_with_unusual_deadzones() {
    assert_eq!(normalize_stick(-100, -10), (-110, 32777));
    assert_eq!(normalize_stick(0, 0), (0, 32767));
    assert_eq!(normalize_stick(32767, 32767), (1, 1));
    assert_eq!(normalize_stick(-32767, 32767), (-1, 1));
    assert_eq!(normalize_stick(32766, 32767), (0, 1));
}

#[test]
fn trigger_normalization_with_threshold() {
    assert_eq!(normalize_trigger(29), (0, 1));
    assert_eq!(normalize_trigger(255), (225, 225));
    assert_eq!(normalize_trigger(130), (100, 225));
}

#[test]
fn change_reader_deadzones() {
    assert_eq!(normalize_axis(2499, 32767), (0, 32767));
    assert_eq!(normalize_axis(-2500, 32767), (-2500, 32767));
    assert_eq!(normalize_axis(-32767, 32767), (-32767, 32767));
    assert_eq!(normalize_axis(32767, 1000), (1000, 1000));
    assert_eq!(normalize_trigger_deadzone(4), (0, 255));
    assert_eq!(normalize_trigger_deadzone(5), (5, 255));
}

#[test]
fn xinput_pad_reports_changed_buttons_and_all_samples() {
    let mut pad = XInputPad::new(rest());
    let mut s = rest();
    s.w_buttons = XINPUT_GAMEPAD_A | XINPUT_GAMEPAD_DPAD_UP;
    s.s_thumb_ly = 20000;
    let events = pad.poll_events(s);
    assert_eq!(events.len(), 2 + 6);
    assert_eq!(events[0], RawEvent::ButtonPress { button: Button::DpadUp, pressed: true });
    assert_eq!(events[1], RawEvent::ButtonPress { button: Button::Cross, pressed: true });
    assert_eq!(events[3], RawEvent::RatioSample { axis: Axis::LeftStickY, num: -(20000 - 7849), den: 32767 - 7849 });
    let again = pad.poll_events(s);
    assert_eq!(again.len(), 6);
}

#[test]
fn change_tracker_reports_only_changes() {
    let mut t = XInputChangeTracker::new();
    let mut s = rest();
    s.w_buttons = XINPUT_GAMEPAD_A;
    s.b_left_trigger = 200;
    s.s_thumb_lx = 1000;
    let events = t.poll_events(s);
    assert_eq!(
        events,
        vec![
            RawEvent::ButtonPress { button: Button::Cross, pressed: true },
            RawEvent::RatioSample { axis: Axis::LeftStickX, num: 1000, den: 32767 },
            RawEvent::RatioSample { axis: Axis::L2, num: 200, den: 255 },
        ]
    );
    assert!(t.poll_events(s).is_empty());
    let mut released = s;
    released.w_buttons = 0;
    assert_eq!(t.poll_events(released), vec![RawEvent::ButtonPress { button: Button::Cross, pressed: false }]);
}

#[test]
fn change_tracker_with_deadzones() {
    let mut t = XInputChangeTracker::new();
    let mut s = rest();
    s.s_thumb_lx = 1000;
    s.s_thumb_ry = -3000;
    s.b_left_trigger = 3;
    s.b_right_trigger = 9;
    assert_eq!(
        t.poll_state(s),
        vec![
            RawEvent::RatioSample { axis: Axis::LeftStickX, num: 0, den: 32767 },
            RawEvent::RatioSample { axis: Axis::RightStickY, num: -3000, den: 32767 },
            RawEvent::RatioSample { axis: Axis::L2, num: 0, den: 255 },
            RawEvent::RatioSample { axis: Axis::R2, num: 9, den: 255 },
        ]
    );
    assert!(t.poll_state(s).is_empty());
}
