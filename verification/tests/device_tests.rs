use ps4_midi_mapper::driver_setup::{guid_to_string, is_joystick_class, DriverSetup, Guid};
use ps4_midi_mapper::gamepad::{
    map_axis, map_button, PadAxis, PadButton, PadButtonTracker, PadEvent, PadEventKind, PadOutput,
};
use ps4_midi_mapper::registry::{
    register_controllers, DeviceMetadata, DeviceRegistry, DirectInputDeviceSpec, DualShockDeviceSpec, InputDevice,
    LinuxControllerExt, Platform, RegisteredDevice, XInputDeviceSpec,
};
use ps4_midi_mapper::types::{Axis, Button, RawEvent};

fn meta(vid: u16, pid: u16, product: &str) -> DeviceMetadata {
    DeviceMetadata::from_hid(vid, pid, 0x0100, Some("Maker".to_string()), Some(product.to_string()), None)
}

#[test]
fn metadata_constructors() {
    let m = meta(0x054C, 0x09CC, "Wireless Controller");
    assert_eq!((m.vid, m.pid, m.version), (0x054C, 0x09CC, 0x0100));
    assert_eq!(m.serial, "");
    let w = DeviceMetadata::from_windows(None, Some("Pad".to_string()), Some("123".to_string()));
    assert_eq!((w.vid, w.pid, w.version), (0, 0, 0));
    assert_eq!(w.manufacturer, "");
    assert_eq!(w.product, "Pad");
    assert_eq!(w.serial, "123");
    let d = DeviceMetadata::from_di(0x054C_09CC, 0x0012_3415, "Inst".to_string(), "Prod".to_string());
    assert_eq!((d.vid, d.pid, d.version), (0x054C, 0x09CC, 0x1234));
    assert_eq!(d.manufacturer, "Inst");
}

#[test]
fn device_kinds_recognize_their_devices() {
    assert!(DirectInputDeviceSpec.is_compatible(&meta(1, 2, "USB Joystick")));
    assert!(!DirectInputDeviceSpec.is_compatible(&meta(1, 2, "Keyboard")));
    assert!(XInputDeviceSpec.is_compatible(&meta(0x045E, 0x028E, "x")));
    assert!(!XInputDeviceSpec.is_compatible(&meta(0x045E, 0x02FF, "x")));
    assert!(DualShockDeviceSpec.is_compatible(&meta(0x054C, 0x05C5, "x")));
    assert_eq!(XInputDeviceSpec.device_name(), "XInput-Compatible Controller");
    assert!(DualShockDeviceSpec.has_touchpad());
    assert!(!XInputDeviceSpec.has_touchpad());
    assert!(DirectInputDeviceSpec.supports_force_feedback());
}

#[test]
fn registry_by_platform() {
    let mut r = DeviceRegistry::new();
    register_controllers(&mut r, Platform::Windows);
    assert_eq!(r.device_types.len(), 2);
    assert_eq!(r.compatible_kinds(&meta(0x045E, 0x028E, "Xbox Gamepad")), vec![0, 1]);
    assert_eq!(r.compatible_kinds(&meta(0x045E, 0x028E, "Xbox")), vec![1]);
    register_controllers(&mut r, Platform::Linux);
    assert_eq!(r.device_types.len(), 3);
    assert_eq!(r.compatible_kinds(&meta(0x054C, 0x09CC, "Wireless Controller")), vec![2]);
    let mut empty = DeviceRegistry::new();
    register_controllers(&mut empty, Platform::Other);
    assert!(empty.device_types.is_empty());
    empty.register_device(RegisteredDevice::XInput(XInputDeviceSpec));
    assert_eq!(empty.device_types.len(), 1);
}

#[test]
fn guid_text() {
    let g = Guid { data1: 0x054C, data2: 0x09CC, data3: 0, data4: [0, 1, 2, 0xAB, 0, 0, 0, 0xFF] };
    assert_eq!(guid_to_string(&g), "54C-9CC-0-000102AB000000FF");
}

#[test]
fn driver_setup_keeps_candidate_devices() {
    let user = Guid { data1: 0x1234, data2: 1, data3: 2, data4: [0; 8] };
    let mut s = DriverSetup::new(Some(vec![user]));
    assert_eq!(s.candidate_guids.len(), 2);
    assert_eq!(s.candidate_guids[0].data1, 0x054C);
    let ds4 = Guid { data1: 0x054C, data2: 0x09CC, data3: 0, data4: [0; 8] };
    let other = Guid { data1: 0x9999, data2: 1, data3: 2, data4: [0; 8] };
    s.record_device(other);
    s.record_device(ds4);
    s.record_device(ds4);
    s.record_device(user);
    assert_eq!(s.device_guids.len(), 3);
    let kept = s.filter_device_guids();
    assert_eq!(kept.len(), 2);
    assert_eq!(kept[0].0, "54C-9CC-0-0000000000000000");
    assert_eq!(kept[1].1.data1, 0x1234);
    let default_only = DriverSetup::new(None);
    assert_eq!(default_only.candidate_guids.len(), 1);
}

#[test]
fn gamepad_button_and_axis_names() {
    assert_eq!(map_button(PadButton::South), Some(Button::Cross));
    assert_eq!(map_button(PadButton::DPadLeft), Some(Button::DpadLeft));
    assert_eq!(map_button(PadButton::C), None);
    assert_eq!(map_axis(PadAxis::LeftZ), Some(Axis::L2));
    assert_eq!(map_axis(PadAxis::DPadX), None);
    assert_eq!(Button::from(PadButton::North), Button::Triangle);
    assert_eq!(Button::from(PadButton::DPadUp), Button::Unknown);
    assert_eq!(Axis::from(PadAxis::RightZ), Axis::R2);
}

#[test]
fn gamepad_tracker_reports_selected_gamepad_only() {
    let mut t = PadButtonTracker::new(1);
    assert_eq!(t.handle_button(0, PadButton::South, true), None);
    assert_eq!(
        t.handle_button(1, PadButton::South, true),
        Some(RawEvent::ButtonPress { button: Button::Cross, pressed: true })
    );
    assert_eq!(t.handle_button(1, PadButton::LeftTrigger2, true), None);
    assert_eq!(t.handle_button(1, PadButton::Unknown, true), None);
    assert!(t.button_states.get(Button::Cross));
}

#[test]
fn joystick_class_guid() {
    let joystick = Guid { data1: 0x4D1E55B2, data2: 0xF16F, data3: 0x11CF, data4: [0x88, 0xCB, 0, 0x11, 0x11, 0, 0, 0] };
    assert!(is_joystick_class(&joystick));
    let other = Guid { data1: 0x4D1E55B2, data2: 0xF16F, data3: 0x11D0, data4: [0; 8] };
    assert!(!is_joystick_class(&other));
}

fn pad_event(id: usize, kind: PadEventKind) -> PadEvent {
    PadEvent { id, kind }
}

#[test]
fn poll_takes_events_of_the_selected_pad_in_order() {
    let mut t = PadButtonTracker::new(1);
    let queue = vec![
        pad_event(1, PadEventKind::ButtonPressed(PadButton::South)),
        pad_event(2, PadEventKind::ButtonPressed(PadButton::East)),
        pad_event(1, PadEventKind::AxisChanged(PadAxis::LeftStickX)),
        pad_event(1, PadEventKind::ButtonPressed(PadButton::RightTrigger2)),
        pad_event(1, PadEventKind::AxisChanged(PadAxis::DPadX)),
        pad_event(1, PadEventKind::Other),
        pad_event(1, PadEventKind::ButtonReleased(PadButton::South)),
    ];
    let poll = t.process_events(&queue);
    assert_eq!(poll.consumed, 7);
    assert_eq!(
        poll.outputs,
        vec![
            PadOutput::Button { button: Button::Cross, pressed: true },
            PadOutput::Axis { position: 2, axis: Some(Axis::LeftStickX) },
            PadOutput::Axis { position: 4, axis: None },
            PadOutput::Button { button: Button::Cross, pressed: false },
        ]
    );
    assert!(!t.button_states.get(Button::Cross));
    assert!(!t.button_states.get(Button::Circle));
}

#[test]
fn poll_stops_after_twenty_events_of_the_selected_pad() {
    let mut t = PadButtonTracker::new(3);
    let mut queue = Vec::new();
    for i in 0..30 {
        queue.push(pad_event(9, PadEventKind::Other));
        let b = if i % 2 == 0 { PadEventKind::ButtonPressed(PadButton::North) } else { PadEventKind::ButtonReleased(PadButton::North) };
        queue.push(pad_event(3, b));
    }
    let poll = t.process_events(&queue);
    assert_eq!(poll.consumed, 40);
    assert_eq!(poll.outputs.len(), 20);
    assert_eq!(poll.outputs[19], PadOutput::Button { button: Button::Triangle, pressed: false });
    let rest = queue[poll.consumed..].to_vec();
    let next = t.process_events(&rest);
    assert_eq!(next.consumed, 20);
    assert_eq!(next.outputs.len(), 10);
    let empty = t.process_events(&Vec::new());
    assert_eq!(empty.consumed, 0);
    assert!(empty.outputs.is_empty());
}
