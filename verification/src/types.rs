use vstd::prelude::*;

verus! {

/// Standard button types across different controllers.
#[derive(Debug, Clone, Copy, PartialEq, Eq, Hash, Structural)]
pub enum Button {
    Cross,
    Circle,
    Square,
    Triangle,
    L1,
    R1,
    L2,
    R2,
    Share,
    Options,
    PS,
    L3,
    R3,
    DpadUp,
    DpadDown,
    DpadLeft,
    DpadRight,
    Touchpad,
    Unknown,
}

/// Standard axis types across different controllers.
#[derive(Debug, Clone, Copy, PartialEq, Eq, Hash, Structural)]
pub enum Axis {
    LeftStickX,
    LeftStickY,
    RightStickX,
    RightStickY,
    L2,
    R2,
    TouchpadX,
    TouchpadY,
    Unknown,
}

/// Basic device information.
#[derive(Debug, Clone)]
pub struct DeviceInfo {
    pub vid: u16,
    pub pid: u16,
    pub manufacturer: String,
    pub product: String,
}

/// Configuration of one controller axis inside a HID report.
///
/// The deadzone is kept in thousandths of the full range (`50` stands for
/// a deadzone of `0.05`).
#[derive(Debug, Clone, Copy, PartialEq, Eq, Structural)]
pub struct AxisConfig {
    pub byte_index: usize,
    pub center_value: u8,
    pub range: u8,
    pub invert: bool,
    pub deadzone_milli: u16,
    pub is_trigger: bool,
}

/// An input event whose value is a plain integer.
///
/// Axis positions are carried as the raw values they were read from; their
/// conversion to normalized floating-point values happens where the events
/// are delivered, in the order in which they stand here.
#[derive(Debug, Clone, Copy, PartialEq, Eq, Structural)]
pub enum RawEvent {
    /// A button changed state.
    ButtonPress { button: Button, pressed: bool },
    /// The touchpad reported a position (either coordinate may be absent).
    TouchpadMove { x: Option<i32>, y: Option<i32> },
    /// A touchpad axis at the given raw coordinate.
    TouchpadAxis { axis: Axis, coord: i32 },
    /// A touchpad axis returned to its center (touch released).
    TouchpadCenter { axis: Axis },
    /// A stick byte (centered at 128), negated after normalizing when `invert` is set.
    StickSample { axis: Axis, raw: u8, invert: bool },
    /// A trigger byte (0 released, 255 fully pressed).
    TriggerSample { axis: Axis, raw: u8 },
    /// A report byte to be normalized with the profile's configuration of the axis.
    AxisSample { axis: Axis, config: AxisConfig, raw: u8 },
    /// The D-pad buttons follow the current values of two axes.
    DpadFromAxes { x_axis: Axis, y_axis: Axis },
    /// An axis at the exact value `num / den` (`den` is positive).
    RatioSample { axis: Axis, num: i32, den: i32 },
}

} // verus!
