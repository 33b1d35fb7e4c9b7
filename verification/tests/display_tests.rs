use ps4_midi_mapper::display::record_control;

fn entry(c: &str, v: &str, o: &str) -> (String, String, String) {
    (c.to_string(), v.to_string(), o.to_string())
}

#[test]
fn recording_a_control_replaces_its_row_and_goes_last() {
    let mut table = Vec::new();
    record_control(&mut table, entry("Cross", "true", "Note 36: ON"));
    record_control(&mut table, entry("LeftStickX", "0.5000", "CC 23: 95"));
    assert_eq!(table, vec![entry("Cross", "true", "Note 36: ON"), entry("LeftStickX", "0.5000", "CC 23: 95")]);
    record_control(&mut table, entry("Cross", "false", "Note 36: OFF"));
    assert_eq!(table, vec![entry("LeftStickX", "0.5000", "CC 23: 95"), entry("Cross", "false", "Note 36: OFF")]);
}

#[test]
fn recording_removes_every_row_of_that_name() {
    let mut table = vec![entry("A", "1", "x"), entry("B", "2", "y"), entry("A", "3", "z")];
    record_control(&mut table, entry("A", "4", "w"));
    assert_eq!(table, vec![entry("B", "2", "y"), entry("A", "4", "w")]);
}
