use vstd::prelude::*;
use crate::directinput::DiJoyState;

verus! {

// ---------------------------------------------------------------------------
// Input types of the earlier DirectInput controller layer.

/// Buttons of the earlier controller layer.
#[derive(Debug, Clone, Copy, PartialEq, Eq, Hash, Structural)]
pub enum Button {
    Cross,
    Circle,
    Triangle,
    Square,
    L1,
    R1,
    L3,
    R3,
    Share,
    Options,
    PS,
    DpadUp,
    DpadDown,
    DpadLeft,
    DpadRight,
    Unknown,
}

/// Axes of the earlier controller layer.
#[derive(Debug, Clone, Copy, PartialEq, Eq, Hash, Structural)]
pub enum Axis {
    LeftStickX,
    LeftStickY,
    RightStickX,
    RightStickY,
    L2,
    R2,
}

/// Raw inputs of a DirectInput joystick state.
#[derive(Debug, Clone, Copy, PartialEq, Eq, Hash, Structural)]
pub enum Input {
    TrackpadX,
    TrackpadY,
    LeftTrigger,
    RightTrigger,
    LeftStickX,
    LeftStickY,
    RightStickX,
    RightStickY,
    Button(u8),
}

/// The kind of controller that was connected.
#[derive(Debug, Clone, Copy, PartialEq, Eq, Structural)]
pub enum ControllerType {
    XInput,
    DirectInput,
    Linux,
}

/// Joystick helpers.
#[derive(Debug)]
pub struct Joystick;

/// A joystick value with a deadzone, as the ratio `num / den`: the deadzone
/// is first clamped to `0..=i16::MAX`; values within it read as centered,
/// and the rest of the range is rescaled to reach one at the end, keeping
/// the sign of the value.
pub open spec fn spec_with_deadzone(value: i16, deadzone: i16) -> (int, int) {
    let dz: int = if deadzone < 0 { 0 } else { deadzone as int };
    let a: int = if value < 0 { -(value as int) } else { value as int };
    if a <= dz {
        (0, 1)
    } else if value < 0 {
        (-(a - dz), 0x7FFF - dz)
    } else {
        (a - dz, 0x7FFF - dz)
    }
}

impl Joystick {
    /// Applies a deadzone to a joystick value, giving the ratio `num / den`
    /// (`den` is positive). The value `i16::MIN` has no absolute value in
    /// 16 bits and is not accepted.
    pub fn with_deadzone(value: i16, deadzone: i16) -> (r: (i32, i32))
        requires
            value != i16::MIN,
        ensures
            (r.0 as int, r.1 as int) == spec_with_deadzone(value, deadzone),
            r.1 > 0,
            -r.1 <= r.0 <= r.1,
    {
        let dz: i16 = if deadzone < 0 { 0 } else { deadzone };
        let abs_value: i16 = if value < 0 { -value } else { value };
        if abs_value <= dz {
            (0, 1)
        } else {
            let num = (abs_value - dz) as i32;
            let den = (i16::MAX - dz) as i32;
            if value < 0 {
                (-num, den)
            } else {
                (num, den)
            }
        }
    }
}

/// The axis that an input feeds, if it is one the earlier controller
/// converts (the trackpad and buttons are not).
pub open spec fn spec_input_axis(input: Input) -> Option<Axis> {
    match input {
        Input::LeftStickX => Some(Axis::LeftStickX),
        Input::LeftStickY => Some(Axis::LeftStickY),
        Input::RightStickX => Some(Axis::RightStickX),
        Input::RightStickY => Some(Axis::RightStickY),
        Input::LeftTrigger => Some(Axis::L2),
        Input::RightTrigger => Some(Axis::R2),
        _ => None,
    }
}

/// The axis that an input feeds, if any.
pub fn input_axis(input: Input) -> (r: Option<Axis>)
    ensures
        r == spec_input_axis(input),
{
    match input {
        Input::LeftStickX => Some(Axis::LeftStickX),
        Input::LeftStickY => Some(Axis::LeftStickY),
        Input::RightStickX => Some(Axis::RightStickX),
        Input::RightStickY => Some(Axis::RightStickY),
        Input::LeftTrigger => Some(Axis::L2),
        Input::RightTrigger => Some(Axis::R2),
        _ => None,
    }
}

/// The button of a button input: index 0 is Cross, 1 is Circle, any other
/// input is unknown.
pub fn input_button(input: Input) -> (r: Button)
    ensures
        r == (match input {
            Input::Button(0) => Button::Cross,
            Input::Button(1) => Button::Circle,
            _ => Button::Unknown,
        }),
{
    match input {
        Input::Button(0) => Button::Cross,
        Input::Button(1) => Button::Circle,
        _ => Button::Unknown,
    }
}

/// A raw input read from a joystick state: an axis at the ratio `num / den`
/// (`den` is positive), or a button.
#[derive(Debug, Clone, Copy, PartialEq, Eq, Structural)]
pub enum InputEvent {
    Axis(Input, i32, i32),
    Button(Input, bool),
}

/// The event of an axis value narrowed to 16 bits, with a deadzone.
pub open spec fn spec_deadzone_event(input: Input, value: i32, deadzone: i16) -> InputEvent {
    let r = spec_with_deadzone(value as i16, deadzone);
    InputEvent::Axis(input, r.0 as i32, r.1 as i32)
}

/// The event of a trigger: the point-of-view value narrowed to 8 bits,
/// released below the deadzone, over 255.
pub open spec fn spec_trigger_event(input: Input, value: u32, deadzone: u8) -> InputEvent {
    let v = value as u8;
    InputEvent::Axis(input, if v < deadzone { 0 } else { v as i32 }, 255)
}

/// The button events of the first `n` buttons: each button by its index,
/// pressed when its byte is at least 0x80.
pub open spec fn spec_button_inputs(buttons: Seq<u8>, n: nat) -> Seq<InputEvent>
    decreases n,
{
    if n == 0 {
        Seq::empty()
    } else {
        spec_button_inputs(buttons, (n - 1) as nat).push(
            InputEvent::Button(Input::Button((n - 1) as u8), buttons[n - 1] >= 0x80),
        )
    }
}

/// The inputs of a joystick state: the trackpad from the two sliders, the
/// triggers from the first two point-of-view values, the four stick axes,
/// then all 32 buttons.
pub open spec fn spec_directinput_inputs(s: DiJoyState, joystick_deadzone: i16, trigger_deadzone: u8) -> Seq<InputEvent> {
    seq![
        spec_deadzone_event(Input::TrackpadX, s.sliders@[0], joystick_deadzone),
        spec_deadzone_event(Input::TrackpadY, s.sliders@[1], joystick_deadzone),
        spec_trigger_event(Input::LeftTrigger, s.pov@[0], trigger_deadzone),
        spec_trigger_event(Input::RightTrigger, s.pov@[1], trigger_deadzone),
        spec_deadzone_event(Input::LeftStickX, s.l_x, joystick_deadzone),
        spec_deadzone_event(Input::LeftStickY, s.l_y, joystick_deadzone),
        spec_deadzone_event(Input::RightStickX, s.l_z, joystick_deadzone),
        spec_deadzone_event(Input::RightStickY, s.l_rz, joystick_deadzone),
    ] + spec_button_inputs(s.buttons@, 32)
}

/// No axis of a joystick state narrows to `i16::MIN`, which has no absolute
/// value in 16 bits.
pub open spec fn spec_axes_in_range(s: DiJoyState) -> bool {
    &&& s.sliders@[0] as i16 != i16::MIN
    &&& s.sliders@[1] as i16 != i16::MIN
    &&& s.l_x as i16 != i16::MIN
    &&& s.l_y as i16 != i16::MIN
    &&& s.l_z as i16 != i16::MIN
    &&& s.l_rz as i16 != i16::MIN
}

fn deadzone_event(input: Input, value: i32, deadzone: i16) -> (e: InputEvent)
    requires
        value as i16 != i16::MIN,
    ensures
        e == spec_deadzone_event(input, value, deadzone),
{
    let r = Joystick::with_deadzone(value as i16, deadzone);
    InputEvent::Axis(input, r.0, r.1)
}

/// Reads the inputs of a joystick state with the given stick and trigger
/// deadzones.
pub fn process_directinput_state(state: &DiJoyState, joystick_deadzone: i16, trigger_deadzone: u8) -> (events: Vec<InputEvent>)
    requires
        spec_axes_in_range(*state),
    ensures
        events@ == spec_directinput_inputs(*state, joystick_deadzone, trigger_deadzone),
{
    let mut events: Vec<InputEvent> = Vec::new();
    events.push(deadzone_event(Input::TrackpadX, state.sliders[0], joystick_deadzone));
    events.push(deadzone_event(Input::TrackpadY, state.sliders[1], joystick_deadzone));
    let left = state.pov[0] as u8;
    let right = state.pov[1] as u8;
    let left = if left < trigger_deadzone { 0 } else { left };
    let right = if right < trigger_deadzone { 0 } else { right };
    events.push(InputEvent::Axis(Input::LeftTrigger, left as i32, 255));
    events.push(InputEvent::Axis(Input::RightTrigger, right as i32, 255));
    events.push(deadzone_event(Input::LeftStickX, state.l_x, joystick_deadzone));
    events.push(deadzone_event(Input::LeftStickY, state.l_y, joystick_deadzone));
    events.push(deadzone_event(Input::RightStickX, state.l_z, joystick_deadzone));
    events.push(deadzone_event(Input::RightStickY, state.l_rz, joystick_deadzone));
    let ghost head = events@;
    let mut i: usize = 0;
    while i < 32
        invariant
            0 <= i <= 32,
            events@ == head + spec_button_inputs(state.buttons@, i as nat),
        decreases 32 - i,
    {
        let btn = state.buttons[i];
        events.push(InputEvent::Button(Input::Button(i as u8), btn >= 0x80));
        i = i + 1;
        assert(events@ =~= head + spec_button_inputs(state.buttons@, i as nat));
    }
    assert(head =~= seq![
        spec_deadzone_event(Input::TrackpadX, state.sliders@[0], joystick_deadzone),
        spec_deadzone_event(Input::TrackpadY, state.sliders@[1], joystick_deadzone),
        spec_trigger_event(Input::LeftTrigger, state.pov@[0], trigger_deadzone),
        spec_trigger_event(Input::RightTrigger, state.pov@[1], trigger_deadzone),
        spec_deadzone_event(Input::LeftStickX, state.l_x, joystick_deadzone),
        spec_deadzone_event(Input::LeftStickY, state.l_y, joystick_deadzone),
        spec_deadzone_event(Input::RightStickX, state.l_z, joystick_deadzone),
        spec_deadzone_event(Input::RightStickY, state.l_rz, joystick_deadzone),
    ]);
    events
}

} // verus!
