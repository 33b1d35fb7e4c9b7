use vstd::prelude::*;
use crate::text::{contains, spec_contains, str_eq, string_of};

verus! {

/// Identity of an input device.
#[derive(Debug, Clone)]
pub struct DeviceMetadata {
    pub vid: u16,
    pub pid: u16,
    pub version: u16,
    pub manufacturer: String,
    pub product: String,
    pub serial: String,
}

/// The text of an optional string, empty when absent.
pub open spec fn spec_or_empty(s: Option<String>) -> Seq<char> {
    match s {
        Some(t) => t@,
        None => Seq::empty(),
    }
}

fn or_empty(s: Option<String>) -> (r: String)
    ensures
        r@ == spec_or_empty(s),
{
    match s {
        Some(t) => t,
        None => String::new(),
    }
}

impl DeviceMetadata {
    /// Metadata of a HID device from its descriptor fields; absent strings
    /// become empty.
    pub fn from_hid(
        vid: u16,
        pid: u16,
        release_number: u16,
        manufacturer: Option<String>,
        product: Option<String>,
        serial: Option<String>,
    ) -> (m: Self)
        ensures
            m.vid == vid && m.pid == pid && m.version == release_number,
            m.manufacturer@ == spec_or_empty(manufacturer),
            m.product@ == spec_or_empty(product),
            m.serial@ == spec_or_empty(serial),
    {
        DeviceMetadata {
            vid,
            pid,
            version: release_number,
            manufacturer: or_empty(manufacturer),
            product: or_empty(product),
            serial: or_empty(serial),
        }
    }

    /// Metadata of a DirectInput device instance: the vendor ID in the high
    /// half of the product GUID's first field, the product ID in its low half,
    /// the version from bits 8 to 23 of the device type.
    pub fn from_di(guid_product_data1: u32, dev_type: u32, instance_name: String, product_name: String) -> (m: Self)
        ensures
            m.vid == guid_product_data1 / 0x10000,
            m.pid == guid_product_data1 % 0x10000,
            m.version == (dev_type / 0x100) % 0x10000,
            m.manufacturer@ == instance_name@,
            m.product@ == product_name@,
            m.serial@ == Seq::<char>::empty(),
    {
        let vid = (guid_product_data1 >> 16) as u16;
        let pid = (guid_product_data1 & 0xFFFF) as u16;
        let version = (dev_type >> 8) as u16;
        assert(vid == guid_product_data1 / 0x10000) by (bit_vector)
            requires vid == (guid_product_data1 >> 16) as u16;
        assert(pid == guid_product_data1 % 0x10000) by (bit_vector)
            requires pid == (guid_product_data1 & 0xFFFF) as u16;
        assert(version == (dev_type / 0x100) % 0x10000) by (bit_vector)
            requires version == (dev_type >> 8) as u16;
        DeviceMetadata { vid, pid, version, manufacturer: instance_name, product: product_name, serial: String::new() }
    }

    /// Metadata from Windows device properties: the IDs are unknown (zero)
    /// and absent properties become empty strings.
    pub fn from_windows(manufacturer: Option<String>, product: Option<String>, serial: Option<String>) -> (m: Self)
        ensures
            m.vid == 0 && m.pid == 0 && m.version == 0,
            m.manufacturer@ == spec_or_empty(manufacturer),
            m.product@ == spec_or_empty(product),
            m.serial@ == spec_or_empty(serial),
    {
        DeviceMetadata {
            vid: 0,
            pid: 0,
            version: 0,
            manufacturer: or_empty(manufacturer),
            product: or_empty(product),
            serial: or_empty(serial),
        }
    }
}

/// A kind of input device that can be recognized among connected devices.
pub trait InputDevice {
    /// Whether a device is of this kind.
    spec fn spec_compatible(&self, device: DeviceMetadata) -> bool;

    /// The human-readable name of this kind.
    spec fn spec_name(&self) -> Seq<char>;

    /// Check if a device is compatible with this device kind.
    fn is_compatible(&self, device: &DeviceMetadata) -> (r: bool)
        ensures
            r == self.spec_compatible(*device);

    /// A human-readable name for the device kind.
    fn device_name(&self) -> (r: &'static str)
        ensures
            r@ == self.spec_name();
}

/// Controllers driven through DirectInput: joysticks and gamepads by name.
#[derive(Debug, Clone, Copy)]
pub struct DirectInputDeviceSpec;

/// Controllers driven through XInput: the Xbox 360 controller.
#[derive(Debug, Clone, Copy)]
pub struct XInputDeviceSpec;

/// Sony DualShock 4 controllers, by their vendor and product IDs.
#[derive(Debug, Clone, Copy)]
pub struct DualShockDeviceSpec;

impl InputDevice for DirectInputDeviceSpec {
    open spec fn spec_compatible(&self, device: DeviceMetadata) -> bool {
        spec_contains(device.product@, "Joystick"@) || spec_contains(device.product@, "Gamepad"@)
    }

    open spec fn spec_name(&self) -> Seq<char> {
        "DirectInput-Compatible Controller"@
    }

    fn is_compatible(&self, device: &DeviceMetadata) -> (r: bool) {
        let j = string_of("Joystick");
        let g = string_of("Gamepad");
        contains(device.product.as_str(), j.as_str()) || contains(device.product.as_str(), g.as_str())
    }

    fn device_name(&self) -> (r: &'static str) {
        "DirectInput-Compatible Controller"
    }
}

impl InputDevice for XInputDeviceSpec {
    open spec fn spec_compatible(&self, device: DeviceMetadata) -> bool {
        device.vid == 0x045E && device.pid == 0x028E
    }

    open spec fn spec_name(&self) -> Seq<char> {
        "XInput-Compatible Controller"@
    }

    fn is_compatible(&self, device: &DeviceMetadata) -> (r: bool) {
        device.vid == 0x045E && device.pid == 0x028E
    }

    fn device_name(&self) -> (r: &'static str) {
        "XInput-Compatible Controller"
    }
}

impl InputDevice for DualShockDeviceSpec {
    open spec fn spec_compatible(&self, device: DeviceMetadata) -> bool {
        device.vid == 0x054C && (device.pid == 0x05C4 || device.pid == 0x09CC || device.pid == 0x05C5
            || device.pid == 0x09C2)
    }

    open spec fn spec_name(&self) -> Seq<char> {
        "DualShock 4"@
    }

    fn is_compatible(&self, device: &DeviceMetadata) -> (r: bool) {
        device.vid == 0x054C && (device.pid == 0x05C4 || device.pid == 0x09CC || device.pid == 0x05C5
            || device.pid == 0x09C2)
    }

    fn device_name(&self) -> (r: &'static str) {
        "DualShock 4"
    }
}

/// Features of controllers on Linux.
pub trait LinuxControllerExt {
    /// Whether the controller supports force feedback.
    fn supports_force_feedback(&self) -> (r: bool)
        ensures
            r;

    /// Whether the controller has a touchpad.
    fn has_touchpad(&self) -> bool;
}

/// Whether a device kind of this name has a touchpad: the DualShock 4 and
/// the DualSense.
pub open spec fn spec_name_has_touchpad(name: Seq<char>) -> bool {
    name == "DualShock 4"@ || name == "DualSense"@
}

impl<T: InputDevice> LinuxControllerExt for T {
    /// Most modern controllers support force feedback.
    fn supports_force_feedback(&self) -> (r: bool) {
        true
    }

    /// Only DualShock controllers have touchpads.
    fn has_touchpad(&self) -> (r: bool)
        ensures
            r == spec_name_has_touchpad(self.spec_name()),
    {
        let name = self.device_name();
        str_eq(name, "DualShock 4") || str_eq(name, "DualSense")
    }
}

/// A registered kind of input device.
#[derive(Debug, Clone, Copy)]
pub enum RegisteredDevice {
    DirectInput(DirectInputDeviceSpec),
    XInput(XInputDeviceSpec),
    DualShock(DualShockDeviceSpec),
}

impl RegisteredDevice {
    /// Whether a device is of the registered kind.
    pub open spec fn spec_compatible(self, device: DeviceMetadata) -> bool {
        match self {
            RegisteredDevice::DirectInput(d) => d.spec_compatible(device),
            RegisteredDevice::XInput(d) => d.spec_compatible(device),
            RegisteredDevice::DualShock(d) => d.spec_compatible(device),
        }
    }

    /// Whether a device is of the registered kind.
    pub fn is_compatible(&self, device: &DeviceMetadata) -> (r: bool)
        ensures
            r == self.spec_compatible(*device),
    {
        match self {
            RegisteredDevice::DirectInput(d) => d.is_compatible(device),
            RegisteredDevice::XInput(d) => d.is_compatible(device),
            RegisteredDevice::DualShock(d) => d.is_compatible(device),
        }
    }
}

/// The kinds of input devices that device detection looks for, in the order
/// they were registered.
pub struct DeviceRegistry {
    pub device_types: Vec<RegisteredDevice>,
}

/// The platform the program runs on.
#[derive(Debug, Clone, Copy, PartialEq, Eq, Structural)]
pub enum Platform {
    Windows,
    Linux,
    Other,
}

impl DeviceRegistry {
    /// An empty registry.
    pub fn new() -> (r: Self)
        ensures
            r.device_types@.len() == 0,
    {
        DeviceRegistry { device_types: Vec::new() }
    }

    /// Registers a new kind of input device after those already registered.
    pub fn register_device(&mut self, device: RegisteredDevice)
        ensures
            final(self).device_types@ == old(self).device_types@.push(device),
    {
        self.device_types.push(device);
    }

    /// For each device, the indices of the registered kinds it is compatible
    /// with, in registration order.
    pub fn compatible_kinds(&self, device: &DeviceMetadata) -> (r: Vec<usize>)
        ensures
            forall|k: int| 0 <= k < r@.len() ==> r@[k] < self.device_types@.len()
                && self.device_types@[r@[k] as int].spec_compatible(*device),
            forall|i: int| 0 <= i < self.device_types@.len() && self.device_types@[i].spec_compatible(*device)
                ==> r@.contains(i as usize),
            forall|a: int, b: int| 0 <= a < b < r@.len() ==> r@[a] < r@[b],
    {
        let mut r: Vec<usize> = Vec::new();
        let mut i: usize = 0;
        while i < self.device_types.len()
            invariant
                0 <= i <= self.device_types.len(),
                forall|k: int| 0 <= k < r@.len() ==> r@[k] < i
                    && self.device_types@[r@[k] as int].spec_compatible(*device),
                forall|j: int| 0 <= j < i && self.device_types@[j].spec_compatible(*device)
                    ==> r@.contains(j as usize),
                forall|a: int, b: int| 0 <= a < b < r@.len() ==> r@[a] < r@[b],
            decreases self.device_types.len() - i,
        {
            let ghost prev = r@;
            if self.device_types[i].is_compatible(device) {
                r.push(i);
                assert(r@[r@.len() - 1] == i);
                assert forall|j: int| 0 <= j < i && self.device_types@[j].spec_compatible(*device)
                    implies r@.contains(j as usize) by {
                    let k = choose|k: int| 0 <= k < prev.len() && prev[k] == j as usize;
                    assert(r@[k] == prev[k]);
                }
            }
            i = i + 1;
        }
        r
    }
}

/// The device kinds registered on a platform, in order.
pub open spec fn spec_platform_devices(platform: Platform) -> Seq<RegisteredDevice> {
    match platform {
        Platform::Windows => seq![
            RegisteredDevice::DirectInput(DirectInputDeviceSpec),
            RegisteredDevice::XInput(XInputDeviceSpec),
        ],
        Platform::Linux => seq![RegisteredDevice::DualShock(DualShockDeviceSpec)],
        Platform::Other => Seq::empty(),
    }
}

/// Register all controller kinds available on a platform: DirectInput and
/// XInput on Windows, the DualShock on Linux, none elsewhere.
pub fn register_controllers(registry: &mut DeviceRegistry, platform: Platform)
    ensures
        final(registry).device_types@ == old(registry).device_types@ + spec_platform_devices(platform),
{
    match platform {
        Platform::Windows => {
            registry.register_device(RegisteredDevice::DirectInput(DirectInputDeviceSpec));
            registry.register_device(RegisteredDevice::XInput(XInputDeviceSpec));
        },
        Platform::Linux => {
            registry.register_device(RegisteredDevice::DualShock(DualShockDeviceSpec));
        },
        Platform::Other => {},
    }
    assert(registry.device_types@ =~= old(registry).device_types@ + spec_platform_devices(platform));
}

} // verus!
