use ps4_midi_mapper::config::{axis_mappings, button_mappings, find_cc, find_note, MIDI_CHANNEL, MIDI_PORT_NAME};
use ps4_midi_mapper::gamepad::{axis_to_midi_cc, button_to_midi_note};
use ps4_midi_mapper::types::{Axis, Button};

#[test]
fn default_button_notes() {
    let table = button_mappings();
    assert_eq!(table.len(), 18);
    assert_eq!(find_note(&table, Button::Cross), Some(36));
    assert_eq!(find_note(&table, Button::Square), Some(39));
    assert_eq!(find_note(&table, Button::Touchpad), Some(53));
    assert_eq!(find_note(&table, Button::Unknown), None);
}

#[test]
fn default_axis_controls() {
    let table = axis_mappings();
    assert_eq!(table.len(), 8);
    assert_eq!(find_cc(&table, Axis::LeftStickX), Some(23));
    assert_eq!(find_cc(&table, Axis::L2), Some(27));
    assert_eq!(find_cc(&table, Axis::TouchpadY), Some(30));
    assert_eq!(find_cc(&table, Axis::Unknown), None);
}

#[test]
fn midi_defaults() {
    assert_eq!(MIDI_CHANNEL, 0);
    assert_eq!(MIDI_PORT_NAME, "");
}

#[test]
fn gamepad_note_and_cc_agree_with_tables() {
    let buttons = button_mappings();
    for m in buttons.iter() {
        assert_eq!(button_to_midi_note(m.button), m.note);
    }
    assert_eq!(button_to_midi_note(Button::Unknown), 0);
    let axes = axis_mappings();
    for m in axes.iter() {
        assert_eq!(axis_to_midi_cc(m.axis), m.cc);
    }
    assert_eq!(axis_to_midi_cc(Axis::Unknown), 0);
}
