use ps4_midi_mapper::directinput::{
    apply_joystick_deadzone, apply_trigger_deadzone, ds4_direct_events, map_button, process_di_state, DiJoyState,
};
use ps4_midi_mapper::types::{Axis, Button, RawEvent};

#[test]
fn trigger_deadzone_below_thirty() {
    assert_eq!(apply_trigger_deadzone(29), 0);
    assert_eq!(apply_trigger_deadzone(30), 30);
    assert_eq!(apply_trigger_deadzone(255), 255);
}

#[test]
fn joystick_deadzone_ratio() {
    assert_eq!(apply_joystick_deadzone(7839), (0, 32767));
    assert_eq!(apply_joystick_deadzone(-7839), (0, 32767));
    assert_eq!(apply_joystick_deadzone(7840), (7840, 32767));
    assert_eq!(apply_joystick_deadzone(-32768), (-32768, 32767));
}

#[test]
fn directinput_button_indices() {
    assert_eq!(map_button(0), Some(Button::Cross));
    assert_eq!(map_button(3), Some(Button::Triangle));
    assert_eq!(map_button(10), Some(Button::PS));
    assert_eq!(map_button(11), None);
}

#[test]
fn joystick_state_events() {
    let mut buttons = [0u8; 32];
    buttons[0] = 0x80;
    buttons[10] = 0x7F;
    buttons[20] = 0xFF;
    let state = DiJoyState {
        l_x: 10000,
        l_y: 100,
        l_z: 0x1_0000 + 8000,
        l_rz: -20000,
        sliders: [0, 0],
        pov: [29, 300, 0, 0],
        buttons,
    };
    let events = process_di_state(&state);
    assert_eq!(events.len(), 4 + 2 + 11);
    assert_eq!(events[0], RawEvent::RatioSample { axis: Axis::LeftStickX, num: 10000, den: 32767 });
    assert_eq!(events[1], RawEvent::RatioSample { axis: Axis::LeftStickY, num: 0, den: 32767 });
    assert_eq!(events[2], RawEvent::RatioSample { axis: Axis::RightStickX, num: 8000, den: 32767 });
    assert_eq!(events[3], RawEvent::RatioSample { axis: Axis::RightStickY, num: -20000, den: 32767 });
    assert_eq!(events[4], RawEvent::RatioSample { axis: Axis::L2, num: 0, den: 255 });
    assert_eq!(events[5], RawEvent::RatioSample { axis: Axis::R2, num: 44, den: 255 });
    assert_eq!(events[6], RawEvent::ButtonPress { button: Button::Cross, pressed: true });
    assert_eq!(events[16], RawEvent::ButtonPress { button: Button::PS, pressed: false });
}

#[test]
fn ds4_direct_report_events() {
    let mut buf = [0u8; 64];
    buf[1] = 128;
    buf[2] = 0;
    buf[3] = 255;
    buf[4] = 130;
    buf[5] = 0x11; // Cross and L3 share a bit; L1 too
    buf[8] = 51;
    buf[9] = 255;
    let events = ds4_direct_events(&buf);
    assert_eq!(
        events,
        vec![
            RawEvent::ButtonPress { button: Button::Cross, pressed: true },
            RawEvent::ButtonPress { button: Button::L1, pressed: true },
            RawEvent::ButtonPress { button: Button::L3, pressed: true },
            RawEvent::RatioSample { axis: Axis::L2, num: 51, den: 255 },
            RawEvent::RatioSample { axis: Axis::R2, num: 255, den: 255 },
            RawEvent::RatioSample { axis: Axis::LeftStickX, num: 0, den: 128 },
            RawEvent::RatioSample { axis: Axis::LeftStickY, num: -128, den: 128 },
            RawEvent::RatioSample { axis: Axis::RightStickX, num: 127, den: 128 },
            RawEvent::RatioSample { axis: Axis::RightStickY, num: 2, den: 128 },
        ]
    );
}
