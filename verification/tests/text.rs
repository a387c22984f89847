use xt_keyboard_tester::text::{format_decimal, format_hex_bytes, spaces, str_eq, trim_to_width};

#[test]
fn trims_to_character_width() {
    assert_eq!(trim_to_width("Backspace", 3), "Bac");
    assert_eq!(trim_to_width("Esc", 10), "Esc");
    assert_eq!(trim_to_width("←↑", 1), "←");
    assert_eq!(trim_to_width("abc", 0), "");
}

#[test]
fn formats_bytes_as_bracketed_hex() {
    assert_eq!(format_hex_bytes(&[0x1e]), "[1E]");
    assert_eq!(format_hex_bytes(&[0xe0, 0x2a, 0x05]), "[E0, 2A, 05]");
    assert_eq!(format_hex_bytes(&[]), "[]");
    assert_eq!(format_hex_bytes(&[0xab]), format!("{:02X?}", [0xabu8]));
}

#[test]
fn formats_decimals() {
    assert_eq!(format_decimal(0), "0");
    assert_eq!(format_decimal(132), "132");
    assert_eq!(format_decimal(65535), "65535");
}

#[test]
fn compares_and_pads() {
    assert!(str_eq("Esc", "Esc"));
    assert!(!str_eq("Esc", "ESC"));
    assert!(!str_eq("Es", "Esc"));
    assert_eq!(spaces(3), "   ");
    assert_eq!(spaces(0), "");
}
