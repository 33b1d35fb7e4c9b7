use ps4_midi_mapper::midi::{
    control_change_message, note_message, note_off_message, note_on_message, program_change_message,
    find_named_port, select_output_port, PortError,
};

#[test]
fn note_message_uses_note_on_for_nonzero_velocity() {
    assert_eq!(note_message(0, 36, 127), [0x90, 36, 127]);
}

#[test]
fn note_message_uses_note_off_for_zero_velocity() {
    assert_eq!(note_message(3, 36, 0), [0x83, 36, 0]);
}

#[test]
fn note_message_keeps_channel_low_nibble() {
    assert_eq!(note_message(17, 60, 100), [0x91, 60, 100]);
}

#[test]
fn note_on_and_off_messages() {
    assert_eq!(note_on_message(1, 60, 0), [0x91, 60, 0]);
    assert_eq!(note_off_message(1, 60), [0x81, 60, 0]);
}

#[test]
fn control_and_program_change_messages() {
    assert_eq!(control_change_message(0, 23, 64), [0xB0, 23, 64]);
    assert_eq!(control_change_message(15, 30, 127), [0xBF, 30, 127]);
    assert_eq!(program_change_message(2, 5), [0xC2, 5]);
}

#[test]
fn output_port_without_wanted_name_is_first() {
    let names = vec![Some("A".to_string()), None, Some("Loop MIDI".to_string())];
    assert_eq!(select_output_port(&names, ""), Ok(0));
}

#[test]
fn output_port_by_name_part() {
    let names = vec![Some("A".to_string()), None, Some("Loop MIDI".to_string())];
    assert_eq!(select_output_port(&names, "Loop"), Ok(2));
    assert_eq!(select_output_port(&names, "X"), Err(PortError::NoMatch));
}

#[test]
fn output_port_errors_on_empty_list() {
    let names: Vec<Option<String>> = Vec::new();
    assert_eq!(select_output_port(&names, ""), Err(PortError::NoPorts));
    assert_eq!(select_output_port(&names, "Loop"), Err(PortError::NoMatch));
}

#[test]
fn named_port_search_skips_unreadable_names() {
    let names = vec![None, Some("Synth".to_string()), Some("Loop MIDI".to_string())];
    assert_eq!(find_named_port(&names, ""), Some(1));
    assert_eq!(find_named_port(&names, "MIDI"), Some(2));
    assert_eq!(find_named_port(&names, "Drum"), None);
}
