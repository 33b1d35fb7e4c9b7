use ps4_midi_mapper::profiles::{
    create_generic_profile, create_profiles, detect_connection_type, get_profile_for_device,
    profile_index_for_device, ConnectionType, DpadType, ProfileFactory,
};
use ps4_midi_mapper::types::{Axis, Button, DeviceInfo};

fn device(vid: u16, pid: u16, product: &str) -> DeviceInfo {
    DeviceInfo { vid, pid, manufacturer: "Sony".to_string(), product: product.to_string() }
}

#[test]
fn wireless_name_means_bluetooth_after_lowercasing() {
    let d = device(0x054C, 0x09CC, "Wireless Controller");
    assert_eq!(detect_connection_type(&d), ConnectionType::Bluetooth);
}

#[test]
fn sony_usb_ids_mean_usb() {
    assert_eq!(detect_connection_type(&device(0x054C, 0x05C4, "Controller")), ConnectionType::USB);
    assert_eq!(detect_connection_type(&device(0x054C, 0x09C2, "Controller")), ConnectionType::Bluetooth);
    assert_eq!(detect_connection_type(&device(0x045E, 0x028E, "Xbox 360 Controller")), ConnectionType::Unknown);
}

#[test]
fn dualshock_usb_profile_layout() {
    let p = ProfileFactory::create_dualshock4_profile(1, ConnectionType::USB);
    assert_eq!(p.name, "DualShock 4 v1");
    assert_eq!(p.vid_pid_pairs, vec![(0x054C, 0x05C4)]);
    assert_eq!(p.connection_type, ConnectionType::USB);
    let (axis, cfg) = p.axis_config[0];
    assert_eq!(axis, Axis::LeftStickX);
    assert_eq!(cfg.byte_index, 1);
    assert!(p.button_map.contains(&(0x0701, Button::PS)));
    match &p.dpad_type {
        DpadType::Hat { byte_index, mask_values } => {
            assert_eq!(*byte_index, 5);
            assert_eq!(mask_values.len(), 9);
        }
        _ => panic!("the DualShock 4 reports its D-pad as a hat"),
    }
}

#[test]
fn dualshock_bluetooth_profile_moves_every_byte_by_two() {
    let p = ProfileFactory::create_dualshock4_profile(2, ConnectionType::Bluetooth);
    assert_eq!(p.name, "DualShock 4 v2 (Bluetooth)");
    assert_eq!(p.description, "Sony PlayStation 4 DualShock Controller v2 (CUH-ZCT2) via Bluetooth");
    assert_eq!(p.vid_pid_pairs, vec![(0x054C, 0x09C2)]);
    assert_eq!(p.connection_type, ConnectionType::Bluetooth);
    let (_, cfg) = p.axis_config[0];
    assert_eq!(cfg.byte_index, 3);
    assert!(p.button_map.contains(&(0x0901, Button::PS)));
    match &p.dpad_type {
        DpadType::Hat { byte_index, .. } => assert_eq!(*byte_index, 7),
        _ => panic!("the DualShock 4 reports its D-pad as a hat"),
    }
}

#[test]
fn bluetooth_variant_of_usb_profile() {
    let usb = ProfileFactory::create_dualshock4_profile(1, ConnectionType::USB);
    let bt = usb.create_bluetooth_variant(2);
    let expected = ProfileFactory::create_dualshock4_profile(1, ConnectionType::Bluetooth);
    assert_eq!(bt.name, expected.name);
    assert_eq!(bt.vid_pid_pairs, vec![(0x054C, 0x05C4)]);
    assert_eq!(expected.vid_pid_pairs, vec![(0x054C, 0x05C5)]);
    assert_eq!(bt.button_map, expected.button_map);
    assert_eq!(bt.axis_config, expected.axis_config);
}

#[test]
fn known_profiles_end_with_generic() {
    let ps = create_profiles();
    assert_eq!(ps.len(), 6);
    assert_eq!(ps[4].name, "Xbox Controller");
    assert_eq!(ps[5].name, "Generic Controller");
    assert_eq!(create_generic_profile().name, "Generic Controller");
    assert_eq!(ProfileFactory::create_xbox_profile().button_map.len(), 15);
}

#[test]
fn profile_for_dualshock_v2_over_usb() {
    let ps = create_profiles();
    let d = device(0x054C, 0x09CC, "Wireless Controller");
    assert_eq!(profile_index_for_device(&d, &ps), Some(2));
    assert_eq!(get_profile_for_device(&d, &ps).map(|p| p.name.clone()), Some("DualShock 4 v2".to_string()));
}

#[test]
fn profile_for_dualshock_v1_over_bluetooth() {
    let ps = create_profiles();
    let d = device(0x054C, 0x05C5, "Wireless Controller");
    assert_eq!(profile_index_for_device(&d, &ps), Some(1));
    let p = get_profile_for_device(&d, &ps).unwrap();
    assert_eq!(p.name, "DualShock 4 v1 (Bluetooth)");
    assert_eq!(p.connection_type, ConnectionType::Bluetooth);
    let d2 = device(0x054C, 0x09C2, "Controller");
    assert_eq!(profile_index_for_device(&d2, &ps), Some(3));
    let d1 = device(0x054C, 0x05C4, "Wireless Controller");
    assert_eq!(profile_index_for_device(&d1, &ps), Some(0));
}

#[test]
fn profile_for_xbox_and_unknown_devices() {
    let ps = create_profiles();
    assert_eq!(profile_index_for_device(&device(0x045E, 0x028E, "Xbox 360 Controller"), &ps), Some(4));
    assert_eq!(profile_index_for_device(&device(0x1234, 0x5678, "Some Pad"), &ps), Some(5));
    assert_eq!(profile_index_for_device(&device(0x1234, 0x5678, "My Generic Controller"), &ps), Some(5));
    let none: Vec<ps4_midi_mapper::profiles::ControllerProfile> = Vec::new();
    assert!(get_profile_for_device(&device(1, 2, "x"), &none).is_none());
}

#[test]
fn profile_matching_respects_connection() {
    let usb = ProfileFactory::create_dualshock4_profile(1, ConnectionType::USB);
    let d = device(0x054C, 0x05C4, "Wireless Controller");
    assert!(usb.matches(&d, ConnectionType::USB));
    assert!(usb.matches(&d, ConnectionType::Unknown));
    assert!(!usb.matches(&d, ConnectionType::Bluetooth));
}
