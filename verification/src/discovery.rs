use vstd::prelude::*;
use crate::text::{contains, spec_contains, spec_to_lowercase, str_eq, to_lowercase};
use crate::types::DeviceInfo;

verus! {

// ---------------------------------------------------------------------------
// Candidates among enumerated HID devices.

/// What an enumeration of HID devices reports about one device.
#[derive(Debug, Clone)]
pub struct HidDeviceSummary {
    pub product: Option<String>,
    pub vendor_id: u16,
    pub product_id: u16,
    pub usage_page: u16,
    pub usage: u16,
    pub interface_number: i32,
}

/// The searches made over a list of enumerated HID devices.
#[derive(Debug, Clone, Copy, PartialEq, Eq, Structural)]
pub enum SearchPass {
    /// The main input interface of a game controller.
    Controller,
    /// A device whose lowercase name says it is a touchpad.
    TouchpadByName,
    /// A device with a touch-like HID usage that is not named a controller.
    TouchpadByUsage,
    /// Any named device that is not a known non-touchpad kind.
    TouchpadFallback,
}

/// A product name of a game controller that is not its touchpad.
pub open spec fn spec_controller_name(name: Seq<char>) -> bool {
    (spec_contains(name, "Controller"@) || spec_contains(name, "Gamepad"@)
        || spec_contains(name, "DualShock"@) || spec_contains(name, "Xbox"@))
        && !spec_contains(name, "Touchpad"@)
}

/// The main input interface of a device: the Game Pad usage, or interface 0.
pub open spec fn spec_main_interface(d: HidDeviceSummary) -> bool {
    (d.usage_page == 0x01 && d.usage == 0x05) || d.interface_number == 0
}

/// HID usages that a touchpad may report: digitizer, touch screen, haptics,
/// or a generic desktop joystick, game pad, keyboard, keypad or multi-axis
/// controller.
pub open spec fn spec_touch_usage(d: HidDeviceSummary) -> bool {
    d.usage_page == 0x0D || d.usage_page == 0x04 || d.usage_page == 0x0B
        || (d.usage_page == 0x01 && (d.usage == 0x04 || d.usage == 0x05 || d.usage == 0x06
        || d.usage == 0x07 || d.usage == 0x08))
}

/// A lowercase name that says the device is a touchpad.
pub open spec fn spec_touchpad_name(lower: Seq<char>) -> bool {
    lower == "hid-compliant touchpad"@ || spec_contains(lower, "touchpad"@)
}

/// A lowercase name of a controller or game pad.
pub open spec fn spec_controller_like(lower: Seq<char>) -> bool {
    spec_contains(lower, "controller"@) || spec_contains(lower, "gamepad"@)
}

/// A lowercase name of a device that is known not to be a touchpad.
pub open spec fn spec_excluded_name(lower: Seq<char>) -> bool {
    spec_contains(lower, "wireless controller"@) || spec_contains(lower, "camera"@)
        || spec_contains(lower, "audio"@) || spec_contains(lower, "mouse"@)
        || spec_contains(lower, "keyboard"@)
}

/// Whether a device is a candidate of a search.
pub open spec fn spec_pass_holds(pass: SearchPass, d: HidDeviceSummary) -> bool {
    match d.product {
        None => false,
        Some(p) => match pass {
            SearchPass::Controller => spec_controller_name(p@) && spec_main_interface(d),
            SearchPass::TouchpadByName => spec_touchpad_name(spec_to_lowercase(p@)),
            SearchPass::TouchpadByUsage => spec_touch_usage(d)
                && !spec_controller_like(spec_to_lowercase(p@)),
            SearchPass::TouchpadFallback => !spec_excluded_name(spec_to_lowercase(p@)),
        },
    }
}

/// The indices below `n`, in increasing order, of the devices that are
/// candidates of a search.
pub open spec fn spec_candidates(devices: Seq<HidDeviceSummary>, pass: SearchPass, n: nat) -> Seq<usize>
    decreases n,
{
    if n == 0 {
        Seq::empty()
    } else {
        let r = spec_candidates(devices, pass, (n - 1) as nat);
        if spec_pass_holds(pass, devices[n - 1]) {
            r.push((n - 1) as usize)
        } else {
            r
        }
    }
}

/// The order in which devices are tried as the separate touchpad: every
/// touchpad by name, then every touchpad by usage, then every other device
/// that may be one.
pub open spec fn spec_touchpad_order(devices: Seq<HidDeviceSummary>) -> Seq<usize> {
    spec_candidates(devices, SearchPass::TouchpadByName, devices.len())
        + spec_candidates(devices, SearchPass::TouchpadByUsage, devices.len())
        + spec_candidates(devices, SearchPass::TouchpadFallback, devices.len())
}

/// Whether a product name is that of a game controller (and not of its touchpad).
pub fn is_controller_name(name: &str) -> (r: bool)
    ensures
        r == spec_controller_name(name@),
{
    (contains(name, "Controller") || contains(name, "Gamepad") || contains(name, "DualShock")
        || contains(name, "Xbox")) && !contains(name, "Touchpad")
}

/// Whether a device is a candidate of a search.
pub fn pass_holds(pass: SearchPass, d: &HidDeviceSummary) -> (r: bool)
    ensures
        r == spec_pass_holds(pass, *d),
{
    match &d.product {
        None => false,
        Some(p) => {
            let name = p.as_str();
            match pass {
                SearchPass::Controller => {
                    is_controller_name(name) && ((d.usage_page == 0x01 && d.usage == 0x05)
                        || d.interface_number == 0)
                },
                SearchPass::TouchpadByName => {
                    let lower = to_lowercase(name);
                    str_eq(lower.as_str(), "hid-compliant touchpad") || contains(lower.as_str(), "touchpad")
                },
                SearchPass::TouchpadByUsage => {
                    let usage = d.usage_page == 0x0D || d.usage_page == 0x04 || d.usage_page == 0x0B
                        || (d.usage_page == 0x01 && (d.usage == 0x04 || d.usage == 0x05
                        || d.usage == 0x06 || d.usage == 0x07 || d.usage == 0x08));
                    if !usage {
                        false
                    } else {
                        let lower = to_lowercase(name);
                        !(contains(lower.as_str(), "controller") || contains(lower.as_str(), "gamepad"))
                    }
                },
                SearchPass::TouchpadFallback => {
                    let lower = to_lowercase(name);
                    let l = lower.as_str();
                    !(contains(l, "wireless controller") || contains(l, "camera") || contains(l, "audio")
                        || contains(l, "mouse") || contains(l, "keyboard"))
                },
            }
        },
    }
}

/// The indices of the devices that are candidates of a search, in the order
/// in which they were enumerated.
pub fn candidates(devices: &Vec<HidDeviceSummary>, pass: SearchPass) -> (r: Vec<usize>)
    ensures
        r@ == spec_candidates(devices@, pass, devices@.len()),
{
    let mut out: Vec<usize> = Vec::new();
    let mut i: usize = 0;
    while i < devices.len()
        invariant
            0 <= i <= devices.len(),
            out@ == spec_candidates(devices@, pass, i as nat),
        decreases devices.len() - i,
    {
        if pass_holds(pass, &devices[i]) {
            out.push(i);
        }
        i = i + 1;
    }
    out
}

/// The devices to try, in order, as the main controller; the first one that
/// opens is used.
pub fn controller_candidates(devices: &Vec<HidDeviceSummary>) -> (r: Vec<usize>)
    ensures
        r@ == spec_candidates(devices@, SearchPass::Controller, devices@.len()),
{
    candidates(devices, SearchPass::Controller)
}

/// The devices to try, in order, as the separate touchpad; the first one
/// that opens is used, and none is used when none opens.
pub fn touchpad_candidates(devices: &Vec<HidDeviceSummary>) -> (r: Vec<usize>)
    ensures
        r@ == spec_touchpad_order(devices@),
{
    let mut order = candidates(devices, SearchPass::TouchpadByName);
    let mut by_usage = candidates(devices, SearchPass::TouchpadByUsage);
    let mut fallback = candidates(devices, SearchPass::TouchpadFallback);
    order.append(&mut by_usage);
    order.append(&mut fallback);
    order
}

/// A controller whose product name says it is a DualShock, read from its HID
/// product string.
pub open spec fn spec_hid_dualshock(product: Seq<char>) -> bool {
    let lower = spec_to_lowercase(product);
    spec_contains(lower, "dualshock"@) || spec_contains(lower, "wireless controller"@)
}

/// Whether a controller found over HID is a DualShock.
pub fn hid_is_dualshock(product: &str) -> (r: bool)
    ensures
        r == spec_hid_dualshock(product@),
{
    let lower = to_lowercase(product);
    contains(lower.as_str(), "dualshock") || contains(lower.as_str(), "wireless controller")
}

// ---------------------------------------------------------------------------
// Controllers found through raw device interfaces.

/// A controller found through a raw device interface, with what was
/// concluded from its names and IDs.
#[derive(Debug, Clone)]
pub struct RawDeviceClass {
    pub device_info: DeviceInfo,
    pub is_dualshock: bool,
    pub is_bluetooth: bool,
}

/// A product name of a game controller, compared in lowercase.
pub open spec fn spec_raw_controller(product: Seq<char>) -> bool {
    let lower = spec_to_lowercase(product);
    spec_contains(lower, "controller"@) || spec_contains(lower, "gamepad"@)
        || spec_contains(lower, "dualshock"@) || spec_contains(lower, "xbox"@)
}

/// A DualShock by its product name, or a Sony wireless controller.
pub open spec fn spec_raw_dualshock(product: Seq<char>, manufacturer: Seq<char>) -> bool {
    let lower = spec_to_lowercase(product);
    spec_contains(lower, "dualshock"@) || (spec_contains(lower, "wireless controller"@)
        && spec_contains(spec_to_lowercase(manufacturer), "sony"@))
}

/// Product IDs of the DualShock 4 connected over Bluetooth (first and second version).
pub open spec fn spec_ds4_bluetooth_pid(pid: u16) -> bool {
    pid == 0x05C5 || pid == 0x09C2
}

/// Product IDs of the DualShock 4, over USB or Bluetooth.
pub open spec fn spec_ds4_pid(pid: u16) -> bool {
    pid == 0x05C4 || pid == 0x09CC || spec_ds4_bluetooth_pid(pid)
}

/// Classifies a device found through a raw device interface: `None` for a
/// device that is not a controller; otherwise its information, whether it
/// is a DualShock, and whether it is one connected over Bluetooth.
pub fn classify_raw_device(vid: u16, pid: u16, product: String, manufacturer: String) -> (r: Option<RawDeviceClass>)
    ensures
        r is None <==> !spec_raw_controller(product@),
        r matches Some(c) ==> {
            &&& c.device_info.vid == vid
            &&& c.device_info.pid == pid
            &&& c.device_info.product@ == product@
            &&& c.device_info.manufacturer@ == manufacturer@
            &&& c.is_dualshock == spec_raw_dualshock(product@, manufacturer@)
            &&& c.is_bluetooth == (c.is_dualshock && spec_ds4_bluetooth_pid(pid))
        },
{
    let lower = to_lowercase(product.as_str());
    let l = lower.as_str();
    let is_controller = contains(l, "controller") || contains(l, "gamepad") || contains(l, "dualshock")
        || contains(l, "xbox");
    if !is_controller {
        return None;
    }
    let is_dualshock = contains(l, "dualshock") || (contains(l, "wireless controller") && {
        let m = to_lowercase(manufacturer.as_str());
        contains(m.as_str(), "sony")
    });
    let is_bluetooth = is_dualshock && (pid == 0x05C5 || pid == 0x09C2);
    Some(RawDeviceClass {
        device_info: DeviceInfo { vid, pid, manufacturer, product },
        is_dualshock,
        is_bluetooth,
    })
}

/// A DualShock 4 by its flag and its product ID.
pub open spec fn spec_preferred_ds4(c: RawDeviceClass) -> bool {
    c.is_dualshock && spec_ds4_pid(c.device_info.pid)
}

/// An Xbox controller by its lowercase product name.
pub open spec fn spec_xbox(c: RawDeviceClass) -> bool {
    spec_contains(spec_to_lowercase(c.device_info.product@), "xbox"@)
}

/// Picks the controller to use among those found: the first DualShock 4,
/// else the first Xbox controller, else the first one; `None` when none was
/// found.
pub fn select_best_controller(devices: &Vec<RawDeviceClass>) -> (r: Option<usize>)
    ensures
        r is None <==> devices@.len() == 0,
        r matches Some(k) ==> {
            &&& k < devices@.len()
            &&& if exists|i: int| 0 <= i < devices@.len() && spec_preferred_ds4(#[trigger] devices@[i]) {
                spec_preferred_ds4(devices@[k as int])
                    && forall|j: int| 0 <= j < k ==> !spec_preferred_ds4(#[trigger] devices@[j])
            } else if exists|i: int| 0 <= i < devices@.len() && spec_xbox(#[trigger] devices@[i]) {
                spec_xbox(devices@[k as int])
                    && forall|j: int| 0 <= j < k ==> !spec_xbox(#[trigger] devices@[j])
            } else {
                k == 0
            }
        },
{
    if devices.len() == 0 {
        return None;
    }
    let mut i: usize = 0;
    while i < devices.len()
        invariant
            0 <= i <= devices.len(),
            forall|j: int| 0 <= j < i ==> !spec_preferred_ds4(#[trigger] devices@[j]),
        decreases devices.len() - i,
    {
        let d = &devices[i];
        let pid = d.device_info.pid;
        if d.is_dualshock && (pid == 0x05C4 || pid == 0x09CC || pid == 0x05C5 || pid == 0x09C2) {
            return Some(i);
        }
        i = i + 1;
    }
    let mut k: usize = 0;
    while k < devices.len()
        invariant
            0 <= k <= devices.len(),
            forall|j: int| 0 <= j < devices@.len() ==> !spec_preferred_ds4(#[trigger] devices@[j]),
            forall|j: int| 0 <= j < k ==> !spec_xbox(#[trigger] devices@[j]),
        decreases devices.len() - k,
    {
        let lower = to_lowercase(devices[k].device_info.product.as_str());
        if contains(lower.as_str(), "xbox") {
            return Some(k);
        }
        k = k + 1;
    }
    Some(0)
}

// ---------------------------------------------------------------------------
// Touchpads among Linux input devices.

/// An input device that is the touchpad of a DualShock: named after the
/// wireless controller, with a multi-touch X axis.
pub open spec fn spec_dualshock_touchpad(name: Seq<char>, has_mt_position_x: bool) -> bool {
    spec_contains(name, "Wireless Controller"@) && has_mt_position_x
}

/// Whether an input device is the touchpad of a DualShock.
pub fn is_dualshock_touchpad(name: &str, has_mt_position_x: bool) -> (r: bool)
    ensures
        r == spec_dualshock_touchpad(name@, has_mt_position_x),
{
    contains(name, "Wireless Controller") && has_mt_position_x
}

/// An input device that may be a controller's touchpad: a touch or Sony
/// name, or the controller's own, with a multi-touch or absolute X axis.
pub open spec fn spec_touchpad_input(name: Seq<char>, has_mt_position_x: bool, has_mt_tracking_id: bool, has_abs_x: bool) -> bool {
    (spec_contains(name, "Touchpad"@) || spec_contains(name, "Touch"@) || spec_contains(name, "SONY"@)
        || spec_contains(name, "Sony"@) || spec_contains(name, "Wireless Controller"@))
        && (has_mt_position_x || has_mt_tracking_id || has_abs_x)
}

/// Whether an input device may be a controller's touchpad.
pub fn is_touchpad_input(name: &str, has_mt_position_x: bool, has_mt_tracking_id: bool, has_abs_x: bool) -> (r: bool)
    ensures
        r == spec_touchpad_input(name@, has_mt_position_x, has_mt_tracking_id, has_abs_x),
{
    (contains(name, "Touchpad") || contains(name, "Touch") || contains(name, "SONY") || contains(name, "Sony")
        || contains(name, "Wireless Controller")) && (has_mt_position_x || has_mt_tracking_id || has_abs_x)
}

} // verus!
