use ps4_midi_mapper::discovery::{
    classify_raw_device, controller_candidates, hid_is_dualshock, is_controller_name, is_dualshock_touchpad,
    is_touchpad_input, select_best_controller, touchpad_candidates, HidDeviceSummary,
};

fn dev(product: Option<&str>, usage_page: u16, usage: u16, interface_number: i32) -> HidDeviceSummary {
    HidDeviceSummary {
        product: product.map(|p| p.to_string()),
        vendor_id: 0x054C,
        product_id: 0x09CC,
        usage_page,
        usage,
        interface_number,
    }
}

#[test]
fn controller_names() {
    assert!(is_controller_name("Wireless Controller"));
    assert!(is_controller_name("Xbox One"));
    assert!(!is_controller_name("Wireless Controller Touchpad"));
    assert!(!is_controller_name("wireless controller"));
}

#[test]
fn controller_candidates_need_main_interface() {
    let devices = vec![
        dev(Some("Wireless Controller"), 0x01, 0x05, 3),
        dev(Some("Wireless Controller"), 0x0C, 0x01, 2),
        dev(None, 0x01, 0x05, 0),
        dev(Some("Gamepad"), 0x0C, 0x01, 0),
        dev(Some("Keyboard"), 0x01, 0x06, 0),
    ];
    assert_eq!(controller_candidates(&devices), vec![0, 3]);
}

#[test]
fn touchpad_candidates_in_three_passes() {
    let devices = vec![
        dev(Some("Wireless Controller"), 0x01, 0x05, 0),
        dev(Some("HID-compliant touchpad"), 0x0D, 0x05, 1),
        dev(Some("Digitizer"), 0x0D, 0x01, 2),
        dev(Some("USB Audio"), 0x0C, 0x01, 3),
        dev(None, 0x0D, 0x05, 4),
    ];
    assert_eq!(touchpad_candidates(&devices), vec![1, 1, 2, 1, 2]);
}

#[test]
fn dualshock_by_hid_name() {
    assert!(hid_is_dualshock("Wireless Controller"));
    assert!(hid_is_dualshock("DUALSHOCK 4"));
    assert!(!hid_is_dualshock("Xbox Controller"));
}

#[test]
fn raw_device_classification() {
    assert!(classify_raw_device(0x046D, 0xC52B, "USB Receiver".to_string(), "Logitech".to_string()).is_none());
    let ds = classify_raw_device(0x054C, 0x05C5, "Wireless Controller".to_string(), "Sony Interactive".to_string())
        .unwrap();
    assert!(ds.is_dualshock);
    assert!(ds.is_bluetooth);
    assert_eq!(ds.device_info.product, "Wireless Controller");
    let other = classify_raw_device(0x1234, 0x05C5, "Wireless Controller".to_string(), "Acme".to_string()).unwrap();
    assert!(!other.is_dualshock);
    assert!(!other.is_bluetooth);
    let usb = classify_raw_device(0x054C, 0x09CC, "DualShock 4".to_string(), "".to_string()).unwrap();
    assert!(usb.is_dualshock);
    assert!(!usb.is_bluetooth);
}

#[test]
fn best_controller_prefers_dualshock_then_xbox() {
    let xbox = classify_raw_device(0x045E, 0x028E, "Xbox 360 Controller".to_string(), "Microsoft".to_string()).unwrap();
    let pad = classify_raw_device(0x1234, 0x0001, "Gamepad".to_string(), "Acme".to_string()).unwrap();
    let ds = classify_raw_device(0x054C, 0x09CC, "Wireless Controller".to_string(), "Sony".to_string()).unwrap();
    assert_eq!(select_best_controller(&vec![pad.clone(), xbox.clone(), ds.clone()]), Some(2));
    assert_eq!(select_best_controller(&vec![pad.clone(), xbox.clone()]), Some(1));
    assert_eq!(select_best_controller(&vec![pad.clone()]), Some(0));
    assert_eq!(select_best_controller(&Vec::new()), None);
}

#[test]
fn linux_touchpad_devices() {
    assert!(is_dualshock_touchpad("Sony Interactive Entertainment Wireless Controller Touchpad", true));
    assert!(!is_dualshock_touchpad("Sony Interactive Entertainment Wireless Controller Touchpad", false));
    assert!(is_touchpad_input("Wireless Controller Touchpad", false, true, false));
    assert!(!is_touchpad_input("Generic Mouse", true, true, true));
    assert!(!is_touchpad_input("Sony Touch", false, false, false));
}
