use ps4_midi_mapper::report_dump::{ascii_dump_line, hex_dump_line, shown_char};
use ps4_midi_mapper::text::{
    contains, nonempty_trimmed_lines, push_decimal, push_hex2, push_hex_upper, replace_all, str_eq, to_lowercase, trim,
};

#[test]
fn lowercase_through_std() {
    assert_eq!(to_lowercase("Wireless CONTROLLER"), "wireless controller");
}

#[test]
fn substring_search() {
    assert!(contains("wireless controller", "less con"));
    assert!(contains("abc", ""));
    assert!(!contains("abc", "abcd"));
    assert!(str_eq("same", "same"));
    assert!(!str_eq("same", "Same"));
}

#[test]
fn hexadecimal_and_decimal_forms() {
    let mut s = String::new();
    push_hex_upper(&mut s, 0x54C);
    s.push('-');
    push_hex2(&mut s, 0x0A);
    s.push('-');
    push_decimal(&mut s, 1907);
    assert_eq!(s, "54C-0A-1907");
    let mut z = String::new();
    push_decimal(&mut z, 0);
    assert_eq!(z, "0");
}

#[test]
fn trimming_whitespace() {
    assert_eq!(trim("  a b \t\r"), "a b");
    assert_eq!(trim("\u{3000}x\u{A0}"), "x");
    assert_eq!(trim("   "), "");
}

#[test]
fn replacing_placeholders() {
    assert_eq!(replace_all("a {} b {}", "{}", "X"), "a X b X");
    assert_eq!(replace_all("{{}}", "{}", "-"), "{-}");
    assert_eq!(replace_all("none", "{}", "X"), "none");
}

#[test]
fn trimmed_nonempty_lines() {
    assert_eq!(
        nonempty_trimmed_lines("a.example.com\r\n\n  b.example.com  \nc"),
        vec!["a.example.com".to_string(), "b.example.com".to_string(), "c".to_string()]
    );
    assert!(nonempty_trimmed_lines("\n \n").is_empty());
}

#[test]
fn report_dump_lines() {
    let data = [0x41u8, 0x00, 0x7E, 0x20, 0xFF];
    assert_eq!(hex_dump_line(&data), "HEX : 41 00 7E 20 FF ");
    assert_eq!(ascii_dump_line(&data), "ASCII: A . ~ . . ");
    assert_eq!(shown_char(b'!'), "!");
    assert_eq!(shown_char(0x7F), ".");
    assert_eq!(hex_dump_line(&[]), "HEX : ");
}
