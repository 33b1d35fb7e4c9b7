use ps4_midi_mapper::directinput::DiJoyState;
use ps4_midi_mapper::legacy::{
    input_axis, input_button, process_directinput_state, Axis, Button, ControllerType, Input, InputEvent, Joystick,
};

#[test]
fn joystick_deadzone_rescales_the_rest() {
    assert_eq!(Joystick::with_deadzone(1000, 2000), (0, 1));
    assert_eq!(Joystick::with_deadzone(2000, 2000), (0, 1));
    assert_eq!(Joystick::with_deadzone(12000, 2000), (10000, 32767 - 2000));
    assert_eq!(Joystick::with_deadzone(-12000, 2000), (-10000, 32767 - 2000));
    assert_eq!(Joystick::with_deadzone(32767, 2000), (32767 - 2000, 32767 - 2000));
}

#[test]
fn joystick_negative_deadzone_counts_as_none() {
    assert_eq!(Joystick::with_deadzone(0, -5), (0, 1));
    assert_eq!(Joystick::with_deadzone(5, -5), (5, 32767));
}

#[test]
fn legacy_input_conversions() {
    assert_eq!(input_axis(Input::LeftTrigger), Some(Axis::L2));
    assert_eq!(input_axis(Input::RightStickY), Some(Axis::RightStickY));
    assert_eq!(input_axis(Input::TrackpadX), None);
    assert_eq!(input_axis(Input::Button(0)), None);
    assert_eq!(input_button(Input::Button(0)), Button::Cross);
    assert_eq!(input_button(Input::Button(1)), Button::Circle);
    assert_eq!(input_button(Input::Button(2)), Button::Unknown);
    assert_eq!(input_button(Input::LeftStickX), Button::Unknown);
    assert_ne!(ControllerType::XInput, ControllerType::Linux);
}

#[test]
fn legacy_directinput_state_inputs() {
    let mut buttons = [0u8; 32];
    buttons[1] = 0x80;
    let state = DiJoyState {
        l_x: 12000,
        l_y: -100,
        l_z: 0,
        l_rz: -32767,
        sliders: [500, 3000],
        pov: [10, 0x1_00 + 40, 0, 0],
        buttons,
    };
    let events = process_directinput_state(&state, 2000, 30);
    assert_eq!(events.len(), 8 + 32);
    assert_eq!(events[0], InputEvent::Axis(Input::TrackpadX, 0, 1));
    assert_eq!(events[1], InputEvent::Axis(Input::TrackpadY, 1000, 32767 - 2000));
    assert_eq!(events[2], InputEvent::Axis(Input::LeftTrigger, 0, 255));
    assert_eq!(events[3], InputEvent::Axis(Input::RightTrigger, 40, 255));
    assert_eq!(events[4], InputEvent::Axis(Input::LeftStickX, 10000, 32767 - 2000));
    assert_eq!(events[5], InputEvent::Axis(Input::LeftStickY, 0, 1));
    assert_eq!(events[7], InputEvent::Axis(Input::RightStickY, -(32767 - 2000), 32767 - 2000));
    assert_eq!(events[8], InputEvent::Button(Input::Button(0), false));
    assert_eq!(events[9], InputEvent::Button(Input::Button(1), true));
    assert_eq!(events[39], InputEvent::Button(Input::Button(31), false));
}
