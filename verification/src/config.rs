use vstd::prelude::*;
use crate::types::{Axis, Button};

verus! {

/// MIDI output port to connect to; the empty name selects the first port.
pub const MIDI_PORT_NAME: &'static str = "";

/// MIDI channel (0-15) on which every message is sent.
pub const MIDI_CHANNEL: u8 = 0;

/// Maps a controller button to a MIDI note.
#[derive(Debug, Clone, Copy, PartialEq, Eq, Structural)]
pub struct MidiMapping {
    pub button: Button,
    pub note: u8,
}

/// Maps a controller axis to a MIDI control-change number.
#[derive(Debug, Clone, Copy, PartialEq, Eq, Structural)]
pub struct AxisMapping {
    pub axis: Axis,
    pub cc: u8,
}

/// The note that the default configuration assigns to each button.
pub open spec fn spec_button_note(b: Button) -> Option<u8> {
    match b {
        Button::Cross => Some(36u8),
        Button::Circle => Some(37u8),
        Button::Triangle => Some(38u8),
        Button::Square => Some(39u8),
        Button::L1 => Some(40u8),
        Button::R1 => Some(41u8),
        Button::L2 => Some(42u8),
        Button::R2 => Some(43u8),
        Button::Share => Some(44u8),
        Button::Options => Some(45u8),
        Button::PS => Some(46u8),
        Button::L3 => Some(47u8),
        Button::R3 => Some(48u8),
        Button::DpadUp => Some(49u8),
        Button::DpadDown => Some(50u8),
        Button::DpadLeft => Some(51u8),
        Button::DpadRight => Some(52u8),
        Button::Touchpad => Some(53u8),
        Button::Unknown => None,
    }
}

/// The control-change number that the default configuration assigns to each axis.
pub open spec fn spec_axis_cc(a: Axis) -> Option<u8> {
    match a {
        Axis::LeftStickX => Some(23u8),
        Axis::LeftStickY => Some(24u8),
        Axis::RightStickX => Some(25u8),
        Axis::RightStickY => Some(26u8),
        Axis::L2 => Some(27u8),
        Axis::R2 => Some(28u8),
        Axis::TouchpadX => Some(29u8),
        Axis::TouchpadY => Some(30u8),
        Axis::Unknown => None,
    }
}

/// The first note that a table of button mappings gives to `b`, if any.
pub open spec fn spec_find_note(table: Seq<MidiMapping>, b: Button) -> Option<u8>
    decreases table.len(),
{
    if table.len() == 0 {
        None
    } else if table[0].button == b {
        Some(table[0].note)
    } else {
        spec_find_note(table.drop_first(), b)
    }
}

/// The first control-change number that a table of axis mappings gives to `a`, if any.
pub open spec fn spec_find_cc(table: Seq<AxisMapping>, a: Axis) -> Option<u8>
    decreases table.len(),
{
    if table.len() == 0 {
        None
    } else if table[0].axis == a {
        Some(table[0].cc)
    } else {
        spec_find_cc(table.drop_first(), a)
    }
}

/// The default button to note table, in its documented order.
pub open spec fn spec_button_mappings() -> Seq<MidiMapping> {
    seq![
        MidiMapping { button: Button::Cross, note: 36 },
        MidiMapping { button: Button::Circle, note: 37 },
        MidiMapping { button: Button::Triangle, note: 38 },
        MidiMapping { button: Button::Square, note: 39 },
        MidiMapping { button: Button::L1, note: 40 },
        MidiMapping { button: Button::R1, note: 41 },
        MidiMapping { button: Button::L2, note: 42 },
        MidiMapping { button: Button::R2, note: 43 },
        MidiMapping { button: Button::Share, note: 44 },
        MidiMapping { button: Button::Options, note: 45 },
        MidiMapping { button: Button::PS, note: 46 },
        MidiMapping { button: Button::L3, note: 47 },
        MidiMapping { button: Button::R3, note: 48 },
        MidiMapping { button: Button::DpadUp, note: 49 },
        MidiMapping { button: Button::DpadDown, note: 50 },
        MidiMapping { button: Button::DpadLeft, note: 51 },
        MidiMapping { button: Button::DpadRight, note: 52 },
        MidiMapping { button: Button::Touchpad, note: 53 },
    ]
}

/// The default axis to control-change table, in its documented order.
pub open spec fn spec_axis_mappings() -> Seq<AxisMapping> {
    seq![
        AxisMapping { axis: Axis::LeftStickX, cc: 23 },
        AxisMapping { axis: Axis::LeftStickY, cc: 24 },
        AxisMapping { axis: Axis::RightStickX, cc: 25 },
        AxisMapping { axis: Axis::RightStickY, cc: 26 },
        AxisMapping { axis: Axis::L2, cc: 27 },
        AxisMapping { axis: Axis::R2, cc: 28 },
        AxisMapping { axis: Axis::TouchpadX, cc: 29 },
        AxisMapping { axis: Axis::TouchpadY, cc: 30 },
    ]
}

/// Button to MIDI note mappings.
pub fn button_mappings() -> (table: Vec<MidiMapping>)
    ensures
        table@ == spec_button_mappings(),
{
    let table = vec![
        MidiMapping { button: Button::Cross, note: 36 },
        MidiMapping { button: Button::Circle, note: 37 },
        MidiMapping { button: Button::Triangle, note: 38 },
        MidiMapping { button: Button::Square, note: 39 },
        MidiMapping { button: Button::L1, note: 40 },
        MidiMapping { button: Button::R1, note: 41 },
        MidiMapping { button: Button::L2, note: 42 },
        MidiMapping { button: Button::R2, note: 43 },
        MidiMapping { button: Button::Share, note: 44 },
        MidiMapping { button: Button::Options, note: 45 },
        MidiMapping { button: Button::PS, note: 46 },
        MidiMapping { button: Button::L3, note: 47 },
        MidiMapping { button: Button::R3, note: 48 },
        MidiMapping { button: Button::DpadUp, note: 49 },
        MidiMapping { button: Button::DpadDown, note: 50 },
        MidiMapping { button: Button::DpadLeft, note: 51 },
        MidiMapping { button: Button::DpadRight, note: 52 },
        MidiMapping { button: Button::Touchpad, note: 53 },
    ];
    assert(table@ =~= spec_button_mappings());
    table
}

/// Axis to MIDI control-change mappings.
pub fn axis_mappings() -> (table: Vec<AxisMapping>)
    ensures
        table@ == spec_axis_mappings(),
{
    let table = vec![
        AxisMapping { axis: Axis::LeftStickX, cc: 23 },
        AxisMapping { axis: Axis::LeftStickY, cc: 24 },
        AxisMapping { axis: Axis::RightStickX, cc: 25 },
        AxisMapping { axis: Axis::RightStickY, cc: 26 },
        AxisMapping { axis: Axis::L2, cc: 27 },
        AxisMapping { axis: Axis::R2, cc: 28 },
        AxisMapping { axis: Axis::TouchpadX, cc: 29 },
        AxisMapping { axis: Axis::TouchpadY, cc: 30 },
    ];
    assert(table@ =~= spec_axis_mappings());
    table
}

proof fn lemma_find_note_skip(table: Seq<MidiMapping>, i: int, b: Button)
    requires
        0 <= i <= table.len(),
        forall|j: int| 0 <= j < i ==> table[j].button != b,
    ensures
        spec_find_note(table, b) == spec_find_note(table.subrange(i, table.len() as int), b),
    decreases i,
{
    if i > 0 {
        lemma_find_note_skip(table.drop_first(), i - 1, b);
        assert(table.drop_first().subrange(i - 1, table.drop_first().len() as int)
            =~= table.subrange(i, table.len() as int));
    } else {
        assert(table.subrange(0, table.len() as int) =~= table);
    }
}

proof fn lemma_find_cc_skip(table: Seq<AxisMapping>, i: int, a: Axis)
    requires
        0 <= i <= table.len(),
        forall|j: int| 0 <= j < i ==> table[j].axis != a,
    ensures
        spec_find_cc(table, a) == spec_find_cc(table.subrange(i, table.len() as int), a),
    decreases i,
{
    if i > 0 {
        lemma_find_cc_skip(table.drop_first(), i - 1, a);
        assert(table.drop_first().subrange(i - 1, table.drop_first().len() as int)
            =~= table.subrange(i, table.len() as int));
    } else {
        assert(table.subrange(0, table.len() as int) =~= table);
    }
}

/// The note of the first mapping in `table` for `button`, if there is one.
pub fn find_note(table: &Vec<MidiMapping>, button: Button) -> (note: Option<u8>)
    ensures
        note == spec_find_note(table@, button),
{
    let mut i: usize = 0;
    while i < table.len()
        invariant
            0 <= i <= table.len(),
            forall|j: int| 0 <= j < i ==> table@[j].button != button,
        decreases table.len() - i,
    {
        if table[i].button == button {
            proof {
                lemma_find_note_skip(table@, i as int, button);
            }
            return Some(table[i].note);
        }
        i = i + 1;
    }
    proof {
        lemma_find_note_skip(table@, i as int, button);
    }
    None
}

/// The control-change number of the first mapping in `table` for `axis`, if there is one.
pub fn find_cc(table: &Vec<AxisMapping>, axis: Axis) -> (cc: Option<u8>)
    ensures
        cc == spec_find_cc(table@, axis),
{
    let mut i: usize = 0;
    while i < table.len()
        invariant
            0 <= i <= table.len(),
            forall|j: int| 0 <= j < i ==> table@[j].axis != axis,
        decreases table.len() - i,
    {
        if table[i].axis == axis {
            proof {
                lemma_find_cc_skip(table@, i as int, axis);
            }
            return Some(table[i].cc);
        }
        i = i + 1;
    }
    proof {
        lemma_find_cc_skip(table@, i as int, axis);
    }
    None
}

/// Looking a button up in the default table gives the note of the documented
/// assignment, and nothing for `Unknown`.
pub proof fn lemma_default_button_table(b: Button)
    ensures
        spec_find_note(spec_button_mappings(), b) == spec_button_note(b),
{
    reveal_with_fuel(spec_find_note, 19);
}

/// Looking an axis up in the default table gives the control-change number
/// of the documented assignment, and nothing for `Unknown`.
pub proof fn lemma_default_axis_table(a: Axis)
    ensures
        spec_find_cc(spec_axis_mappings(), a) == spec_axis_cc(a),
{
    reveal_with_fuel(spec_find_cc, 9);
}

/// No two buttons share a note in the default table, and no two axes share a
/// control-change number.
pub proof fn lemma_default_tables_injective(b1: Button, b2: Button, a1: Axis, a2: Axis)
    ensures
        spec_button_note(b1) is Some && spec_button_note(b1) == spec_button_note(b2) ==> b1 == b2,
        spec_axis_cc(a1) is Some && spec_axis_cc(a1) == spec_axis_cc(a2) ==> a1 == a2,
{
}

} // verus!
