use ps4_midi_mapper::mapper::{MapperState, DEBOUNCE_NANOS};
use ps4_midi_mapper::types::{Axis, Button};

const MS: u64 = 1_000_000;

#[test]
fn button_press_and_release_send_notes() {
    let mut m = MapperState::new();
    assert_eq!(m.process_button(Button::Cross, true, 1000 * MS), Some([0x90, 36, 127]));
    assert_eq!(m.process_button(Button::Cross, false, 1100 * MS), Some([0x80, 36, 0]));
}

#[test]
fn repeated_state_sends_nothing() {
    let mut m = MapperState::new();
    assert_eq!(m.process_button(Button::Circle, false, 5 * MS), None);
    assert!(m.process_button(Button::Circle, true, 10 * MS).is_some());
    assert_eq!(m.process_button(Button::Circle, true, 500 * MS), None);
}

#[test]
fn release_sooner_than_debounce_time_is_ignored() {
    let mut m = MapperState::new();
    assert!(m.process_button(Button::Square, true, 100 * MS).is_some());
    assert_eq!(m.process_button(Button::Square, false, 100 * MS + DEBOUNCE_NANOS - 1), None);
    assert!(m.button_states.get(Button::Square));
    assert_eq!(m.process_button(Button::Square, false, 100 * MS + DEBOUNCE_NANOS), Some([0x80, 39, 0]));
}

#[test]
fn unmapped_button_is_recorded_without_message() {
    let mut m = MapperState::new();
    assert_eq!(m.process_button(Button::Unknown, true, 0), None);
    assert!(m.button_states.get(Button::Unknown));
}

#[test]
fn control_change_sent_only_on_new_value() {
    let mut m = MapperState::new();
    assert_eq!(m.process_axis_value(Axis::L2, 64), Some([0xB0, 27, 64]));
    assert_eq!(m.process_axis_value(Axis::L2, 64), None);
    assert_eq!(m.process_axis_value(Axis::L2, 65), Some([0xB0, 27, 65]));
    assert_eq!(m.process_axis_value(Axis::Unknown, 1), None);
}

#[test]
fn value_255_counts_as_already_sent() {
    let mut m = MapperState::new();
    assert_eq!(m.process_axis_value(Axis::TouchpadX, 255), None);
    assert_eq!(m.process_axis_value(Axis::TouchpadX, 0), Some([0xB0, 29, 0]));
}
