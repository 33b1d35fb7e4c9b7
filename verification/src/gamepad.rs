use vstd::prelude::*;
use crate::buttons::ButtonStates;
use crate::config::{spec_axis_cc, spec_button_note};
use crate::text::{contains, spec_contains};
use crate::types::{Axis, Button, RawEvent};

verus! {

/// Buttons as the gamepad event library names them.
#[derive(Debug, Clone, Copy, PartialEq, Eq, Structural)]
pub enum PadButton {
    South,
    East,
    North,
    West,
    C,
    Z,
    LeftTrigger,
    LeftTrigger2,
    RightTrigger,
    RightTrigger2,
    Select,
    Start,
    Mode,
    LeftThumb,
    RightThumb,
    DPadUp,
    DPadDown,
    DPadLeft,
    DPadRight,
    Unknown,
}

/// Axes as the gamepad event library names them.
#[derive(Debug, Clone, Copy, PartialEq, Eq, Structural)]
pub enum PadAxis {
    LeftStickX,
    LeftStickY,
    LeftZ,
    RightStickX,
    RightStickY,
    RightZ,
    DPadX,
    DPadY,
    Unknown,
}

/// The controller button of a gamepad button, for the buttons of a DualShock layout.
pub open spec fn spec_map_button(b: PadButton) -> Option<Button> {
    match b {
        PadButton::South => Some(Button::Cross),
        PadButton::East => Some(Button::Circle),
        PadButton::West => Some(Button::Square),
        PadButton::North => Some(Button::Triangle),
        PadButton::LeftTrigger => Some(Button::L1),
        PadButton::RightTrigger => Some(Button::R1),
        PadButton::LeftTrigger2 => Some(Button::L2),
        PadButton::RightTrigger2 => Some(Button::R2),
        PadButton::Select => Some(Button::Share),
        PadButton::Start => Some(Button::Options),
        PadButton::Mode => Some(Button::PS),
        PadButton::LeftThumb => Some(Button::L3),
        PadButton::RightThumb => Some(Button::R3),
        PadButton::DPadUp => Some(Button::DpadUp),
        PadButton::DPadDown => Some(Button::DpadDown),
        PadButton::DPadLeft => Some(Button::DpadLeft),
        PadButton::DPadRight => Some(Button::DpadRight),
        _ => None,
    }
}

/// Maps a gamepad button to a controller button.
pub fn map_button(button: PadButton) -> (r: Option<Button>)
    ensures
        r == spec_map_button(button),
{
    match button {
        PadButton::South => Some(Button::Cross),
        PadButton::East => Some(Button::Circle),
        PadButton::West => Some(Button::Square),
        PadButton::North => Some(Button::Triangle),
        PadButton::LeftTrigger => Some(Button::L1),
        PadButton::RightTrigger => Some(Button::R1),
        PadButton::LeftTrigger2 => Some(Button::L2),
        PadButton::RightTrigger2 => Some(Button::R2),
        PadButton::Select => Some(Button::Share),
        PadButton::Start => Some(Button::Options),
        PadButton::Mode => Some(Button::PS),
        PadButton::LeftThumb => Some(Button::L3),
        PadButton::RightThumb => Some(Button::R3),
        PadButton::DPadUp => Some(Button::DpadUp),
        PadButton::DPadDown => Some(Button::DpadDown),
        PadButton::DPadLeft => Some(Button::DpadLeft),
        PadButton::DPadRight => Some(Button::DpadRight),
        _ => None,
    }
}

/// The controller axis of a gamepad axis: the sticks, and the two Z axes as triggers.
pub open spec fn spec_map_axis(a: PadAxis) -> Option<Axis> {
    match a {
        PadAxis::LeftStickX => Some(Axis::LeftStickX),
        PadAxis::LeftStickY => Some(Axis::LeftStickY),
        PadAxis::RightStickX => Some(Axis::RightStickX),
        PadAxis::RightStickY => Some(Axis::RightStickY),
        PadAxis::LeftZ => Some(Axis::L2),
        PadAxis::RightZ => Some(Axis::R2),
        _ => None,
    }
}

/// Maps a gamepad axis to a controller axis.
pub fn map_axis(axis: PadAxis) -> (r: Option<Axis>)
    ensures
        r == spec_map_axis(axis),
{
    match axis {
        PadAxis::LeftStickX => Some(Axis::LeftStickX),
        PadAxis::LeftStickY => Some(Axis::LeftStickY),
        PadAxis::RightStickX => Some(Axis::RightStickX),
        PadAxis::RightStickY => Some(Axis::RightStickY),
        PadAxis::LeftZ => Some(Axis::L2),
        PadAxis::RightZ => Some(Axis::R2),
        _ => None,
    }
}

/// The MIDI note of a button in the mapper's configuration, 0 for none.
pub fn button_to_midi_note(button: Button) -> (note: u8)
    ensures
        note == match spec_button_note(button) {
            Some(n) => n,
            None => 0u8,
        },
{
    match button {
        Button::Cross => 36,
        Button::Circle => 37,
        Button::Triangle => 38,
        Button::Square => 39,
        Button::L1 => 40,
        Button::R1 => 41,
        Button::L2 => 42,
        Button::R2 => 43,
        Button::Share => 44,
        Button::Options => 45,
        Button::PS => 46,
        Button::L3 => 47,
        Button::R3 => 48,
        Button::Touchpad => 53,
        Button::DpadUp => 49,
        Button::DpadDown => 50,
        Button::DpadLeft => 51,
        Button::DpadRight => 52,
        _ => 0,
    }
}

/// The MIDI control-change number of an axis in the mapper's configuration, 0 for none.
pub fn axis_to_midi_cc(axis: Axis) -> (cc: u8)
    ensures
        cc == match spec_axis_cc(axis) {
            Some(n) => n,
            None => 0u8,
        },
{
    match axis {
        Axis::LeftStickX => 23,
        Axis::LeftStickY => 24,
        Axis::RightStickX => 25,
        Axis::RightStickY => 26,
        Axis::L2 => 27,
        Axis::R2 => 28,
        Axis::TouchpadX => 29,
        Axis::TouchpadY => 30,
        _ => 0,
    }
}

/// The most events of the selected gamepad handled in one poll.
pub const MAX_EVENTS_PER_POLL: usize = 20;

/// What a gamepad event says, as far as the mapper reads it.
#[derive(Debug, Clone, Copy, PartialEq, Eq, Structural)]
pub enum PadEventKind {
    ButtonPressed(PadButton),
    ButtonReleased(PadButton),
    /// An axis moved; its value stays with the caller, at the event's position.
    AxisChanged(PadAxis),
    /// Any other event (connection changes and the like).
    Other,
}

/// A gamepad event: the gamepad it came from and what it says.
#[derive(Debug, Clone, Copy, PartialEq, Eq, Structural)]
pub struct PadEvent {
    pub id: usize,
    pub kind: PadEventKind,
}

/// What a poll hands on for one event of the selected gamepad.
#[derive(Debug, Clone, Copy, PartialEq, Eq, Structural)]
pub enum PadOutput {
    /// A mapped button other than the analog triggers was pressed or released.
    Button { button: Button, pressed: bool },
    /// The axis event at `position` of the queue, with its controller axis if
    /// it has one.
    Axis { position: usize, axis: Option<Axis> },
}

/// The result of a poll: how many events of the queue were taken off its
/// front, and what they gave, in queue order.
pub struct PadPoll {
    pub consumed: usize,
    pub outputs: Vec<PadOutput>,
}

/// How many of the first `n` events of the queue come from gamepad `id`.
pub open spec fn spec_own_count(q: Seq<PadEvent>, id: usize, n: int) -> int
    decreases n,
{
    if n <= 0 {
        0
    } else {
        spec_own_count(q, id, n - 1) + if q[n - 1].id == id { 1int } else { 0int }
    }
}

/// What one event at a queue position gives when gamepad `id` is read.
pub open spec fn spec_pad_output(e: PadEvent, id: usize, position: int) -> Option<PadOutput> {
    if e.id != id {
        None
    } else {
        match e.kind {
            PadEventKind::ButtonPressed(b) => match spec_map_button(b) {
                Some(m) if m != Button::L2 && m != Button::R2 => Some(PadOutput::Button { button: m, pressed: true }),
                _ => None,
            },
            PadEventKind::ButtonReleased(b) => match spec_map_button(b) {
                Some(m) if m != Button::L2 && m != Button::R2 => Some(PadOutput::Button { button: m, pressed: false }),
                _ => None,
            },
            PadEventKind::AxisChanged(a) => Some(PadOutput::Axis { position: position as usize, axis: spec_map_axis(a) }),
            PadEventKind::Other => None,
        }
    }
}

/// What the first `n` events of the queue give, in order.
pub open spec fn spec_pad_outputs(q: Seq<PadEvent>, id: usize, n: int) -> Seq<PadOutput>
    decreases n,
{
    if n <= 0 {
        Seq::empty()
    } else {
        let prev = spec_pad_outputs(q, id, n - 1);
        match spec_pad_output(q[n - 1], id, n - 1) {
            Some(o) => prev.push(o),
            None => prev,
        }
    }
}

/// The button states after the first `n` events of the queue.
pub open spec fn spec_pad_states(states: Map<Button, bool>, q: Seq<PadEvent>, id: usize, n: int) -> Map<Button, bool>
    decreases n,
{
    if n <= 0 {
        states
    } else {
        let prev = spec_pad_states(states, q, id, n - 1);
        match spec_pad_output(q[n - 1], id, n - 1) {
            Some(PadOutput::Button { button, pressed }) => prev.insert(button, pressed),
            _ => prev,
        }
    }
}

/// Tracks gamepad button events of the selected gamepad.
pub struct PadButtonTracker {
    pub gamepad_id: usize,
    pub button_states: ButtonStates,
}

impl PadButtonTracker {
    /// A tracker for a gamepad, with all buttons released.
    pub fn new(gamepad_id: usize) -> (t: Self)
        ensures
            t.gamepad_id == gamepad_id,
            forall|b: Button| !#[trigger] t.button_states@[b],
    {
        PadButtonTracker { gamepad_id, button_states: ButtonStates::new() }
    }

    /// Handles a press or release of a gamepad button: events of other
    /// gamepads, unmapped buttons and the analog triggers (read as axes) are
    /// ignored; any other button is recorded and reported, changed or not.
    pub fn handle_button(&mut self, id: usize, button: PadButton, pressed: bool) -> (r: Option<RawEvent>)
        ensures
            final(self).gamepad_id == old(self).gamepad_id,
            match spec_map_button(button) {
                Some(b) if id == old(self).gamepad_id && b != Button::L2 && b != Button::R2 => {
                    &&& r == Some(RawEvent::ButtonPress { button: b, pressed })
                    &&& final(self).button_states@ == old(self).button_states@.insert(b, pressed)
                },
                _ => r is None && final(self).button_states@ == old(self).button_states@,
            },
    {
        if id != self.gamepad_id {
            return None;
        }
        match map_button(button) {
            Some(mapped) => {
                if mapped != Button::L2 && mapped != Button::R2 {
                    let mut ignored: Vec<RawEvent> = Vec::new();
                    let was = self.button_states.get(mapped);
                    if was != pressed {
                        self.button_states.update_button(mapped, pressed, &mut ignored);
                    } else {
                        proof {
                            assert(old(self).button_states@.insert(mapped, pressed) =~= old(self).button_states@);
                        }
                    }
                    Some(RawEvent::ButtonPress { button: mapped, pressed })
                } else {
                    None
                }
            },
            None => None,
        }
    }

    /// One poll of the event queue: events are taken off its front until
    /// [`MAX_EVENTS_PER_POLL`] events of the selected gamepad have been
    /// handled or the queue is empty. Events of other gamepads are taken off
    /// without counting; every event of the selected gamepad counts, whatever
    /// it says. Buttons go through [`Self::handle_button`]; every axis event
    /// is handed on with its position, mapped or not.
    pub fn process_events(&mut self, queue: &Vec<PadEvent>) -> (r: PadPoll)
        ensures
            final(self).gamepad_id == old(self).gamepad_id,
            r.consumed <= queue@.len(),
            spec_own_count(queue@, old(self).gamepad_id, r.consumed as int) <= MAX_EVENTS_PER_POLL,
            spec_own_count(queue@, old(self).gamepad_id, r.consumed as int) < MAX_EVENTS_PER_POLL
                ==> r.consumed == queue@.len(),
            r.consumed > 0 && spec_own_count(queue@, old(self).gamepad_id, r.consumed as int) == MAX_EVENTS_PER_POLL
                ==> queue@[r.consumed - 1].id == old(self).gamepad_id,
            r.outputs@ == spec_pad_outputs(queue@, old(self).gamepad_id, r.consumed as int),
            final(self).button_states@ == spec_pad_states(
                old(self).button_states@,
                queue@,
                old(self).gamepad_id,
                r.consumed as int,
            ),
    {
        let mut outputs: Vec<PadOutput> = Vec::new();
        let mut count: usize = 0;
        let mut i: usize = 0;
        while i < queue.len() && count < MAX_EVENTS_PER_POLL
            invariant
                self.gamepad_id == old(self).gamepad_id,
                0 <= i <= queue@.len(),
                count as int == spec_own_count(queue@, self.gamepad_id, i as int),
                count <= MAX_EVENTS_PER_POLL,
                i > 0 && count == MAX_EVENTS_PER_POLL ==> queue@[i - 1].id == self.gamepad_id,
                outputs@ == spec_pad_outputs(queue@, self.gamepad_id, i as int),
                self.button_states@ == spec_pad_states(old(self).button_states@, queue@, self.gamepad_id, i as int),
            decreases queue@.len() - i,
        {
            let e = queue[i];
            if e.id == self.gamepad_id {
                match e.kind {
                    PadEventKind::ButtonPressed(b) => {
                        if let Some(RawEvent::ButtonPress { button, pressed }) = self.handle_button(e.id, b, true) {
                            outputs.push(PadOutput::Button { button, pressed });
                        }
                    },
                    PadEventKind::ButtonReleased(b) => {
                        if let Some(RawEvent::ButtonPress { button, pressed }) = self.handle_button(e.id, b, false) {
                            outputs.push(PadOutput::Button { button, pressed });
                        }
                    },
                    PadEventKind::AxisChanged(a) => {
                        outputs.push(PadOutput::Axis { position: i, axis: map_axis(a) });
                    },
                    PadEventKind::Other => {},
                }
                count = count + 1;
            }
            i = i + 1;
        }
        PadPoll { consumed: i, outputs }
    }
}

/// The controller button of a gamepad button in the simpler conversion,
/// which knows no D-pad buttons and gives `Unknown` for anything unmapped.
pub open spec fn spec_button_from_pad(b: PadButton) -> Button {
    match b {
        PadButton::South => Button::Cross,
        PadButton::East => Button::Circle,
        PadButton::North => Button::Triangle,
        PadButton::West => Button::Square,
        PadButton::LeftTrigger => Button::L1,
        PadButton::RightTrigger => Button::R1,
        PadButton::LeftTrigger2 => Button::L2,
        PadButton::RightTrigger2 => Button::R2,
        PadButton::Select => Button::Share,
        PadButton::Start => Button::Options,
        PadButton::Mode => Button::PS,
        PadButton::LeftThumb => Button::L3,
        PadButton::RightThumb => Button::R3,
        _ => Button::Unknown,
    }
}

/// The controller axis of a gamepad axis, `Unknown` for anything unmapped.
pub open spec fn spec_axis_from_pad(a: PadAxis) -> Axis {
    match spec_map_axis(a) {
        Some(x) => x,
        None => Axis::Unknown,
    }
}

impl From<PadButton> for Button {
    fn from(btn: PadButton) -> (r: Button) {
        match btn {
            PadButton::South => Button::Cross,
            PadButton::East => Button::Circle,
            PadButton::North => Button::Triangle,
            PadButton::West => Button::Square,
            PadButton::LeftTrigger => Button::L1,
            PadButton::RightTrigger => Button::R1,
            PadButton::LeftTrigger2 => Button::L2,
            PadButton::RightTrigger2 => Button::R2,
            PadButton::Select => Button::Share,
            PadButton::Start => Button::Options,
            PadButton::Mode => Button::PS,
            PadButton::LeftThumb => Button::L3,
            PadButton::RightThumb => Button::R3,
            _ => Button::Unknown,
        }
    }
}

impl vstd::std_specs::convert::FromSpecImpl<PadButton> for Button {
    open spec fn obeys_from_spec() -> bool {
        true
    }

    open spec fn from_spec(btn: PadButton) -> Button {
        spec_button_from_pad(btn)
    }
}

impl From<PadAxis> for Axis {
    fn from(axis: PadAxis) -> (r: Axis) {
        match axis {
            PadAxis::LeftStickX => Axis::LeftStickX,
            PadAxis::LeftStickY => Axis::LeftStickY,
            PadAxis::RightStickX => Axis::RightStickX,
            PadAxis::RightStickY => Axis::RightStickY,
            PadAxis::LeftZ => Axis::L2,
            PadAxis::RightZ => Axis::R2,
            _ => Axis::Unknown,
        }
    }
}

impl vstd::std_specs::convert::FromSpecImpl<PadAxis> for Axis {
    open spec fn obeys_from_spec() -> bool {
        true
    }

    open spec fn from_spec(axis: PadAxis) -> Axis {
        spec_axis_from_pad(axis)
    }
}

/// The gamepad library names face buttons by their place on the pad; on a
/// DualShock the bottom one (South) is Cross, the right one (East) Circle,
/// the left one (West) Square and the top one (North) Triangle. The upper
/// shoulder buttons are L1 and R1, the lower ones L2 and R2; Select, Start
/// and Mode are Share, Options and PS; the thumb clicks are L3 and R3; the
/// D-pad keeps its directions; C, Z and unknown buttons stand for no button.
pub proof fn lemma_pad_button_places()
    ensures
        spec_map_button(PadButton::South) == Some(Button::Cross),
        spec_map_button(PadButton::East) == Some(Button::Circle),
        spec_map_button(PadButton::West) == Some(Button::Square),
        spec_map_button(PadButton::North) == Some(Button::Triangle),
        spec_map_button(PadButton::LeftTrigger) == Some(Button::L1),
        spec_map_button(PadButton::RightTrigger) == Some(Button::R1),
        spec_map_button(PadButton::LeftTrigger2) == Some(Button::L2),
        spec_map_button(PadButton::RightTrigger2) == Some(Button::R2),
        spec_map_button(PadButton::Select) == Some(Button::Share),
        spec_map_button(PadButton::Start) == Some(Button::Options),
        spec_map_button(PadButton::Mode) == Some(Button::PS),
        spec_map_button(PadButton::LeftThumb) == Some(Button::L3),
        spec_map_button(PadButton::RightThumb) == Some(Button::R3),
        spec_map_button(PadButton::DPadUp) == Some(Button::DpadUp),
        spec_map_button(PadButton::DPadDown) == Some(Button::DpadDown),
        spec_map_button(PadButton::DPadLeft) == Some(Button::DpadLeft),
        spec_map_button(PadButton::DPadRight) == Some(Button::DpadRight),
        spec_map_button(PadButton::C) == None::<Button>,
        spec_map_button(PadButton::Z) == None::<Button>,
        spec_map_button(PadButton::Unknown) == None::<Button>,
{
}

/// The simpler conversion agrees with the full mapping wherever it knows a
/// button, and knows every button of the full mapping except the D-pad.
pub proof fn lemma_button_conversions_agree(b: PadButton)
    ensures
        spec_button_from_pad(b) != Button::Unknown ==> spec_map_button(b) == Some(spec_button_from_pad(b)),
        spec_map_button(b) is Some && spec_map_button(b)->0 != Button::DpadUp && spec_map_button(b)->0
            != Button::DpadDown && spec_map_button(b)->0 != Button::DpadLeft && spec_map_button(b)->0
            != Button::DpadRight ==> spec_button_from_pad(b) == spec_map_button(b)->0,
{
}

/// A gamepad name that the mapper accepts as a controller.
pub open spec fn spec_controller_pad_name(name: Seq<char>) -> bool {
    spec_contains(name, "DualShock"@) || spec_contains(name, "Wireless Controller"@)
        || spec_contains(name, "Controller"@)
}

/// Chooses the gamepad to read among those connected, by their names in
/// order: the last one whose name is a controller's; none when no name is.
pub fn select_gamepad(names: &Vec<String>) -> (r: Option<usize>)
    ensures
        match r {
            Some(i) => i < names@.len() && spec_controller_pad_name(names@[i as int]@)
                && forall|j: int| i < j < names@.len() ==> !spec_controller_pad_name(#[trigger] names@[j]@),
            None => forall|j: int| 0 <= j < names@.len() ==> !spec_controller_pad_name(#[trigger] names@[j]@),
        },
{
    let mut chosen: Option<usize> = None;
    let mut i: usize = 0;
    while i < names.len()
        invariant
            0 <= i <= names@.len(),
            match chosen {
                Some(k) => k < i && spec_controller_pad_name(names@[k as int]@)
                    && forall|j: int| k < j < i ==> !spec_controller_pad_name(#[trigger] names@[j]@),
                None => forall|j: int| 0 <= j < i ==> !spec_controller_pad_name(#[trigger] names@[j]@),
            },
        decreases names.len() - i,
    {
        let n = names[i].as_str();
        if contains(n, "DualShock") || contains(n, "Wireless Controller") || contains(n, "Controller") {
            chosen = Some(i);
        }
        i = i + 1;
    }
    chosen
}

} // verus!
